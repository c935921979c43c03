//! Precedence is a strict order, total up to build metadata.

use vstd::prelude::*;
use crate::version::{
    char_precedes, identifier_precedes, parts_before, pre_precedes, precedes, seq_precedes,
    IdentifierView, VersionView,
};

verus! {

/// No sequence comes before itself.
proof fn lemma_seq_irreflexive<A>(a: Seq<A>, before: spec_fn(A, A) -> bool)
    requires
        forall|x: A| !(#[trigger] before(x, x)),
    ensures
        !seq_precedes(a, a, before),
{
    if seq_precedes(a, a, before) {
        let k = choose|k: int| parts_before(a, a, before, k);
        assert(before(a[k], a[k]));
    }
}

/// The dictionary order passes from `a` over `b` to `c`.
proof fn lemma_seq_transitive<A>(
    a: Seq<A>,
    b: Seq<A>,
    c: Seq<A>,
    before: spec_fn(A, A) -> bool,
)
    requires
        forall|x: A, y: A, z: A| #[trigger]
            before(x, y) && #[trigger] before(y, z) ==> before(x, z),
        seq_precedes(a, b, before),
        seq_precedes(b, c, before),
    ensures
        seq_precedes(a, c, before),
{
    let j = choose|k: int| parts_before(a, b, before, k);
    let k = choose|k: int| parts_before(b, c, before, k);
    let least = if j <= k {
        j
    } else {
        k
    };
    assert(parts_before(a, c, before, least));
}

/// Of two different sequences one comes before the other.
proof fn lemma_seq_total<A>(a: Seq<A>, b: Seq<A>, before: spec_fn(A, A) -> bool, k: int)
    requires
        forall|x: A, y: A| x != y ==> #[trigger] before(x, y) || before(y, x),
        0 <= k <= a.len(),
        k <= b.len(),
        forall|i: int| 0 <= i < k ==> a[i] == b[i],
        a != b,
    ensures
        seq_precedes(a, b, before) || seq_precedes(b, a, before),
    decreases a.len() - k,
{
    if k == a.len() {
        if k == b.len() {
            assert(a =~= b);
        }
        assert(parts_before(a, b, before, k));
    } else if k == b.len() {
        assert(parts_before(b, a, before, k));
    } else if a[k] == b[k] {
        lemma_seq_total(a, b, before, k + 1);
    } else if before(a[k], b[k]) {
        assert(parts_before(a, b, before, k));
    } else {
        assert(before(b[k], a[k]));
        assert(parts_before(b, a, before, k));
    }
}

spec fn chars_before() -> spec_fn(char, char) -> bool {
    |c: char, d: char| char_precedes(c, d)
}

spec fn identifiers_before() -> spec_fn(IdentifierView, IdentifierView) -> bool {
    |x: IdentifierView, y: IdentifierView| identifier_precedes(x, y)
}

proof fn lemma_identifier_irreflexive(x: IdentifierView)
    ensures
        !identifier_precedes(x, x),
{
    if let IdentifierView::AlphaNumeric(s) = x {
        lemma_seq_irreflexive(s, chars_before());
    }
}

proof fn lemma_identifier_transitive(x: IdentifierView, y: IdentifierView, z: IdentifierView)
    requires
        identifier_precedes(x, y),
        identifier_precedes(y, z),
    ensures
        identifier_precedes(x, z),
{
    match (x, y, z) {
        (
            IdentifierView::AlphaNumeric(s),
            IdentifierView::AlphaNumeric(t),
            IdentifierView::AlphaNumeric(u),
        ) => {
            lemma_seq_transitive(s, t, u, chars_before());
        },
        _ => {},
    }
}

proof fn lemma_identifier_total(x: IdentifierView, y: IdentifierView)
    requires
        x != y,
    ensures
        identifier_precedes(x, y) || identifier_precedes(y, x),
{
    match (x, y) {
        (IdentifierView::AlphaNumeric(s), IdentifierView::AlphaNumeric(t)) => {
            assert forall|c: char, d: char| c != d implies #[trigger] chars_before()(c, d)
                || chars_before()(d, c) by {
                assert(char_precedes(c, d) || char_precedes(d, c));
            }
            lemma_seq_total(s, t, chars_before(), 0);
        },
        _ => {},
    }
}

/// No version comes before itself, nor before one that differs from it in build
/// metadata alone.
pub proof fn precedence_is_irreflexive(a: VersionView, b: VersionView)
    requires
        a.major == b.major,
        a.minor == b.minor,
        a.patch == b.patch,
        a.pre == b.pre,
    ensures
        !precedes(a, b),
{
    assert forall|x: IdentifierView| !(#[trigger] identifiers_before()(x, x)) by {
        lemma_identifier_irreflexive(x);
    }
    lemma_seq_irreflexive(a.pre, identifiers_before());
}

/// Where `a` comes before `b` and `b` before `c`, `a` comes before `c`.
pub proof fn precedence_is_transitive(a: VersionView, b: VersionView, c: VersionView)
    requires
        precedes(a, b),
        precedes(b, c),
    ensures
        precedes(a, c),
{
    if pre_precedes(a.pre, b.pre) && pre_precedes(b.pre, c.pre) && c.pre.len() > 0 {
        assert forall|x: IdentifierView, y: IdentifierView, z: IdentifierView| #[trigger]
            identifiers_before()(x, y) && #[trigger] identifiers_before()(
                y,
                z,
            ) implies identifiers_before()(x, z) by {
            lemma_identifier_transitive(x, y, z);
        }
        lemma_seq_transitive(a.pre, b.pre, c.pre, identifiers_before());
    }
}

/// No two versions each come before the other.
pub proof fn precedence_is_asymmetric(a: VersionView, b: VersionView)
    requires
        precedes(a, b),
    ensures
        !precedes(b, a),
{
    if precedes(b, a) {
        precedence_is_transitive(a, b, a);
        precedence_is_irreflexive(a, a);
    }
}

/// Of two versions one comes before the other, unless they differ in build
/// metadata at most.
pub proof fn precedence_is_total(a: VersionView, b: VersionView)
    ensures
        precedes(a, b) || precedes(b, a) || (a.major == b.major && a.minor == b.minor && a.patch
            == b.patch && a.pre == b.pre),
{
    if a.major == b.major && a.minor == b.minor && a.patch == b.patch && a.pre != b.pre {
        assert forall|x: IdentifierView, y: IdentifierView| x != y implies #[trigger]
            identifiers_before()(x, y) || identifiers_before()(y, x) by {
            lemma_identifier_total(x, y);
        }
        if a.pre.len() == 0 && b.pre.len() == 0 {
            assert(a.pre =~= b.pre);
        } else if a.pre.len() > 0 && b.pre.len() > 0 {
            lemma_seq_total(a.pre, b.pre, identifiers_before(), 0);
        }
    }
}

/// Of two versions with different numbers the one with the smaller major number
/// comes first, then that with the smaller minor, then that with the smaller patch
/// number, whatever else they hold.
pub proof fn precedence_goes_by_numbers(a: VersionView, b: VersionView)
    ensures
        a.major < b.major ==> precedes(a, b) && !precedes(b, a),
        a.major == b.major && a.minor < b.minor ==> precedes(a, b) && !precedes(b, a),
        a.major == b.major && a.minor == b.minor && a.patch < b.patch ==> precedes(a, b)
            && !precedes(b, a),
{
}

/// Build metadata has no say.
pub proof fn precedence_ignores_build(
    a: VersionView,
    b: VersionView,
    x: Seq<IdentifierView>,
    y: Seq<IdentifierView>,
)
    ensures
        precedes(VersionView { build: x, ..a }, VersionView { build: y, ..b }) == precedes(a, b),
{
}

/// A pre-release comes before the release that it leads to, and that release before
/// none of its pre-releases.
pub proof fn pre_release_comes_before_release(a: VersionView, b: VersionView)
    requires
        a.major == b.major && a.minor == b.minor && a.patch == b.patch,
        b.pre.len() == 0,
    ensures
        precedes(a, b) <==> a.pre.len() > 0,
        !precedes(b, a),
{
}

/// Two pre-releases of a release go by the first part in which they differ.
pub proof fn pre_releases_go_by_first_difference(
    a: VersionView,
    b: VersionView,
    common: Seq<IdentifierView>,
    x: IdentifierView,
    y: IdentifierView,
    after_x: Seq<IdentifierView>,
    after_y: Seq<IdentifierView>,
)
    requires
        a.major == b.major && a.minor == b.minor && a.patch == b.patch,
        a.pre == common + seq![x] + after_x,
        b.pre == common + seq![y] + after_y,
        x != y,
    ensures
        precedes(a, b) <==> identifier_precedes(x, y),
{
    let k = common.len() as int;
    assert(a.pre[k] == x && b.pre[k] == y);
    assert forall|i: int| 0 <= i < k implies a.pre[i] == b.pre[i] by {
        assert(a.pre[i] == common[i] && b.pre[i] == common[i]);
    }
    if identifier_precedes(x, y) {
        assert(parts_before(a.pre, b.pre, identifiers_before(), k));
    }
    if precedes(a, b) {
        let j = choose|j: int| parts_before(a.pre, b.pre, identifiers_before(), j);
        if j < k {
            lemma_identifier_irreflexive(a.pre[j]);
        }
    }
}

/// A pre-release comes before one that goes on where it ends.
pub proof fn longer_pre_release_comes_later(
    a: VersionView,
    b: VersionView,
    more: Seq<IdentifierView>,
)
    requires
        a.major == b.major && a.minor == b.minor && a.patch == b.patch,
        a.pre.len() > 0,
        more.len() > 0,
        b.pre == a.pre + more,
    ensures
        precedes(a, b),
        !precedes(b, a),
{
    assert(parts_before(a.pre, b.pre, identifiers_before(), a.pre.len() as int));
    precedence_is_asymmetric(a, b);
}

/// Numbers in a pre-release go by size, and come before words.
pub proof fn numbers_come_before_words(m: u64, n: u64, word: Seq<char>)
    ensures
        identifier_precedes(IdentifierView::Numeric(m), IdentifierView::Numeric(n)) <==> m < n,
        identifier_precedes(IdentifierView::Numeric(m), IdentifierView::AlphaNumeric(word)),
        !identifier_precedes(IdentifierView::AlphaNumeric(word), IdentifierView::Numeric(m)),
{
}

/// Words in a pre-release go by the first character in which they differ, that is by
/// code point.
pub proof fn words_go_by_first_difference(
    common: Seq<char>,
    c: char,
    d: char,
    after_c: Seq<char>,
    after_d: Seq<char>,
)
    requires
        c != d,
    ensures
        identifier_precedes(
            IdentifierView::AlphaNumeric(common + seq![c] + after_c),
            IdentifierView::AlphaNumeric(common + seq![d] + after_d),
        ) <==> (c as int) < (d as int),
{
    let a = common + seq![c] + after_c;
    let b = common + seq![d] + after_d;
    let k = common.len() as int;
    assert(a[k] == c && b[k] == d);
    assert forall|i: int| 0 <= i < k implies a[i] == b[i] by {
        assert(a[i] == common[i] && b[i] == common[i]);
    }
    if (c as int) < (d as int) {
        assert(parts_before(a, b, chars_before(), k));
    }
    if seq_precedes(a, b, chars_before()) {
        let j = choose|j: int| parts_before(a, b, chars_before(), j);
        assert(j == k);
    }
}

/// A word comes before one that goes on where it ends.
pub proof fn longer_word_comes_later(word: Seq<char>, more: Seq<char>)
    requires
        more.len() > 0,
    ensures
        identifier_precedes(
            IdentifierView::AlphaNumeric(word),
            IdentifierView::AlphaNumeric(word + more),
        ),
{
    assert(parts_before(word, word + more, chars_before(), word.len() as int));
}

} // verus!
