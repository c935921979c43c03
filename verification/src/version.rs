//! Semantic versions: their parts, how they are read from text, and which of
//! two comes first.

use vstd::prelude::*;

verus! {

/// One dot-separated part of the pre-release or of the build metadata.
#[derive(Debug, PartialEq, Eq)]
pub enum Identifier {
    /// A part made of digits alone.
    Numeric(u64),
    /// Any other part.
    AlphaNumeric(String),
}

/// A version number in the semantic versioning scheme.
#[derive(Debug, PartialEq, Eq)]
pub struct Version {
    pub major: u64,
    pub minor: u64,
    pub patch: u64,
    /// The pre-release parts; none for a proper release.
    pub pre: Vec<Identifier>,
    /// The build metadata, which has no say in precedence.
    pub build: Vec<Identifier>,
}

/// What an [`Identifier`] says.
#[verifier::ext_equal]
pub enum IdentifierView {
    Numeric(u64),
    AlphaNumeric(Seq<char>),
}

/// What a [`Version`] says.
#[verifier::ext_equal]
pub struct VersionView {
    pub major: u64,
    pub minor: u64,
    pub patch: u64,
    pub pre: Seq<IdentifierView>,
    pub build: Seq<IdentifierView>,
}

impl View for Identifier {
    type V = IdentifierView;

    open spec fn view(&self) -> IdentifierView {
        match self {
            Identifier::Numeric(n) => IdentifierView::Numeric(*n),
            Identifier::AlphaNumeric(s) => IdentifierView::AlphaNumeric(s@),
        }
    }
}

/// What each identifier of a list says.
pub open spec fn identifiers(list: Seq<Identifier>) -> Seq<IdentifierView> {
    Seq::new(list.len(), |i: int| list[i]@)
}

impl View for Version {
    type V = VersionView;

    open spec fn view(&self) -> VersionView {
        VersionView {
            major: self.major,
            minor: self.minor,
            patch: self.patch,
            pre: identifiers(self.pre@),
            build: identifiers(self.build@),
        }
    }
}

/// Whether `a` comes before `b` in the dictionary order that `before` induces
/// on sequences: at the first place where they part, `a` has ended or holds
/// the earlier element.
pub open spec fn seq_precedes<A>(a: Seq<A>, b: Seq<A>, before: spec_fn(A, A) -> bool) -> bool {
    exists|k: int| parts_before(a, b, before, k)
}

/// `a` and `b` agree below `k`, and at `k` the sequence `a` comes first.
pub open spec fn parts_before<A>(
    a: Seq<A>,
    b: Seq<A>,
    before: spec_fn(A, A) -> bool,
    k: int,
) -> bool {
    &&& 0 <= k <= a.len()
    &&& k < b.len()
    &&& forall|i: int| 0 <= i < k ==> a[i] == b[i]
    &&& k == a.len() || before(a[k], b[k])
}

/// The order of code points.
pub open spec fn char_precedes(a: char, b: char) -> bool {
    (a as int) < (b as int)
}

/// Numbers come before words; numbers go by size, words by their characters.
pub open spec fn identifier_precedes(a: IdentifierView, b: IdentifierView) -> bool {
    match (a, b) {
        (IdentifierView::Numeric(x), IdentifierView::Numeric(y)) => x < y,
        (IdentifierView::Numeric(_), IdentifierView::AlphaNumeric(_)) => true,
        (IdentifierView::AlphaNumeric(_), IdentifierView::Numeric(_)) => false,
        (IdentifierView::AlphaNumeric(x), IdentifierView::AlphaNumeric(y)) => seq_precedes(
            x,
            y,
            |c: char, d: char| char_precedes(c, d),
        ),
    }
}

/// A pre-release comes before the release that it leads to; two pre-releases
/// go by their identifiers.
pub open spec fn pre_precedes(a: Seq<IdentifierView>, b: Seq<IdentifierView>) -> bool {
    if a.len() == 0 {
        false
    } else if b.len() == 0 {
        true
    } else {
        seq_precedes(a, b, |x: IdentifierView, y: IdentifierView| identifier_precedes(x, y))
    }
}

/// Semantic versioning's precedence: by major, minor and patch number, then by
/// the pre-release. Build metadata is ignored.
pub open spec fn precedes(a: VersionView, b: VersionView) -> bool {
    if a.major != b.major {
        a.major < b.major
    } else if a.minor != b.minor {
        a.minor < b.minor
    } else if a.patch != b.patch {
        a.patch < b.patch
    } else {
        pre_precedes(a.pre, b.pre)
    }
}

/// What `semver::Version::parse` makes of a text: the version, or the message
/// of its error.
pub uninterp spec fn parsed_version(text: Seq<char>) -> Result<VersionView, Seq<char>>;

/// What a parse result says.
pub open spec fn parse_view(r: Result<Version, String>) -> Result<VersionView, Seq<char>> {
    match r {
        Ok(v) => Ok(v@),
        Err(m) => Err(m@),
    }
}

/// Calls `semver::Version::parse`, which reads a whole text as a semantic
/// version. Claimed of it: the outcome, version or error message, is a
/// function of the text's characters. Which texts are versions is not said.
#[verifier::external_body]
fn semver_parse(text: &str) -> (r: Result<Version, String>)
    ensures
        parse_view(r) == parsed_version(text@),
{
    let own = |list: Vec<semver::Identifier>| list.into_iter().map(|i| match i {
        semver::Identifier::Numeric(n) => Identifier::Numeric(n),
        semver::Identifier::AlphaNumeric(s) => Identifier::AlphaNumeric(s),
    }).collect();
    match semver::Version::parse(text) {
        Ok(v) => Ok(Version {
            major: v.major, minor: v.minor, patch: v.patch, pre: own(v.pre), build: own(v.build),
        }),
        Err(semver::SemVerError::ParseError(m)) => Err(m),
    }
}

/// Calls `<` on two `semver::Version`s. Claimed of it: it is true exactly where
/// the left version has lower precedence, as [`precedes`] says; words in a
/// pre-release are ordered as `String`s are, that is by code point.
#[verifier::external_body]
fn semver_less(a: &Version, b: &Version) -> (r: bool)
    ensures
        r == precedes(a@, b@),
{
    let outer = |list: &Vec<Identifier>| list.iter().map(|i| match i {
        Identifier::Numeric(n) => semver::Identifier::Numeric(*n),
        Identifier::AlphaNumeric(s) => semver::Identifier::AlphaNumeric(s.clone()),
    }).collect();
    let whole = |v: &Version| semver::Version {
        major: v.major, minor: v.minor, patch: v.patch, pre: outer(&v.pre), build: outer(&v.build),
    };
    whole(a) < whole(b)
}

impl Clone for Identifier {
    fn clone(&self) -> (r: Self)
        ensures
            r@ == self@,
    {
        match self {
            Identifier::Numeric(n) => Identifier::Numeric(*n),
            Identifier::AlphaNumeric(s) => Identifier::AlphaNumeric(s.clone()),
        }
    }
}

fn clone_identifiers(list: &Vec<Identifier>) -> (r: Vec<Identifier>)
    ensures
        identifiers(r@) == identifiers(list@),
{
    let mut r: Vec<Identifier> = Vec::new();
    let mut i: usize = 0;
    while i < list.len()
        invariant
            i <= list.len(),
            identifiers(r@) == identifiers(list@).take(i as int),
        decreases list.len() - i,
    {
        let ghost before = r@;
        r.push(list[i].clone());
        assert(identifiers(r@) =~= identifiers(before).push(list[i as int]@));
        i += 1;
    }
    r
}

impl Clone for Version {
    fn clone(&self) -> (r: Self)
        ensures
            r@ == self@,
    {
        Version {
            major: self.major,
            minor: self.minor,
            patch: self.patch,
            pre: clone_identifiers(&self.pre),
            build: clone_identifiers(&self.build),
        }
    }
}

/// The text that a release tag holds beside an optional leading `v`.
pub open spec fn tag_text(tag: Seq<char>) -> Seq<char> {
    if tag.len() > 0 && tag[0] == 'v' {
        tag.skip(1)
    } else {
        tag
    }
}

/// The version without pre-release and build metadata.
pub open spec fn plain_version(major: u64, minor: u64, patch: u64) -> VersionView {
    VersionView { major, minor, patch, pre: Seq::empty(), build: Seq::empty() }
}

impl Version {
    /// The version `major.minor.patch`.
    pub fn new(major: u64, minor: u64, patch: u64) -> (r: Version)
        ensures
            r@ == plain_version(major, minor, patch),
    {
        Version { major, minor, patch, pre: Vec::new(), build: Vec::new() }
    }

    /// Reads a semantic version.
    ///
    /// # Errors
    /// The parser's message, where the text is not one.
    pub fn parse(text: &str) -> (r: Result<Version, String>)
        ensures
            parse_view(r) == parsed_version(text@),
    {
        semver_parse(text)
    }

    /// Reads the version from a release tag, which may put the letter `v`
    /// before the semantic version: `v0.3.1` or `0.3.1`.
    ///
    /// # Errors
    /// The parser's message, where the rest of the tag is not a version.
    pub fn parse_tag(tag: &str) -> (r: Result<Version, String>)
        ensures
            parse_view(r) == parsed_version(tag_text(tag@)),
    {
        let n = tag.unicode_len();
        if n > 0 && tag.get_char(0) == 'v' {
            semver_parse(tag.substring_char(1, n))
        } else {
            semver_parse(tag)
        }
    }

    /// Whether this version has lower precedence than `other`.
    pub fn is_older_than(&self, other: &Version) -> (r: bool)
        ensures
            r == precedes(self@, other@),
    {
        semver_less(self, other)
    }
}

} // verus!
