//! The names of the files that a workflow's updater keeps.

use vstd::prelude::*;
use crate::error::UpdaterError;

verus! {

/// What the environment says of the workflow that runs.
pub struct Workflow {
    /// The workflow's name.
    pub name: Option<String>,
    /// The workflow's unique id.
    pub uid: Option<String>,
    /// The workflow's version.
    pub version: Option<String>,
    /// Whether a folder for the workflow's data is known.
    pub has_data_dir: bool,
    /// Whether a folder for the workflow's cache is known.
    pub has_cache_dir: bool,
}

/// The name of the file, next to the updater's data, that holds the outcome of
/// the last blocking check.
pub const LATEST_UPDATE_INFO_CACHE_FN: &'static str = "last_check_status.json";

/// The same for a check that a worker made.
pub const LATEST_UPDATE_INFO_CACHE_FN_ASYNC: &'static str = "last_check_status_async.json";

/// ASCII letters and digits.
pub open spec fn is_plain(c: char) -> bool {
    ('a' <= c && c <= 'z') || ('A' <= c && c <= 'Z') || ('0' <= c && c <= '9')
}

/// A name with every character but ASCII letters and digits turned into an
/// underscore.
pub open spec fn sanitized(name: Seq<char>) -> Seq<char> {
    Seq::new(
        name.len(),
        |i: int|
            if is_plain(name[i]) {
                name[i]
            } else {
                '_'
            },
    )
}

/// The name that stands in for a workflow without one.
pub open spec fn fallback_name() -> Seq<char> {
    "YouForgotTo/フ:NameYourOwnWork}flowッ"@
}

/// The file that holds the updater's state, below the data folder.
pub open spec fn data_file_name(uid: Seq<char>, name: Seq<char>) -> Seq<char> {
    uid + "-"@ + sanitized(name) + "-updater.json"@
}

/// The file that holds a downloaded release, below the cache folder.
pub open spec fn release_file_name(uid: Seq<char>) -> Seq<char> {
    "latest_release_"@ + uid + ".alfredworkflow"@
}

/// The length of the folder part of a path, with its closing slash.
pub open spec fn folder_len(path: Seq<char>) -> nat
    decreases path.len(),
{
    if path.len() == 0 {
        0
    } else if path.last() == '/' {
        path.len()
    } else {
        folder_len(path.drop_last())
    }
}

/// The path with another file name at its end.
pub open spec fn sibling(path: Seq<char>, name: Seq<char>) -> Seq<char> {
    path.take(folder_len(path) as int) + name
}

/// Specifies `String::push`, which appends one character.
pub assume_specification[ String::push ](s: &mut String, c: char)
    ensures
        final(s)@ == old(s)@.push(c),
;

/// Turns every character but ASCII letters and digits into an underscore.
pub fn sanitize(name: &str) -> (r: String)
    ensures
        r@ == sanitized(name@),
{
    let mut r = String::new();
    for c in it: name.chars()
        invariant
            it.seq() == name@,
            r@ == sanitized(name@).take(it.index() as int),
    {
        if ('a' <= c && c <= 'z') || ('A' <= c && c <= 'Z') || ('0' <= c && c <= '9') {
            r.push(c);
        } else {
            r.push('_');
        }
        assert(r@ =~= sanitized(name@).take(it.index() + 1));
    }
    assert(r@ =~= sanitized(name@));
    r
}

/// The name that the data file is built from.
pub open spec fn name_or_fallback(name: Option<String>) -> Seq<char> {
    match name {
        Some(n) => n@,
        None => fallback_name(),
    }
}

/// The file that holds the updater's state, below the data folder; it takes a
/// data folder and then an id.
pub open spec fn data_file<E>(workflow: Workflow) -> Result<Seq<char>, UpdaterError<E>> {
    if !workflow.has_data_dir {
        Err(UpdaterError::MissingDataDir)
    } else {
        match workflow.uid {
            None => Err(UpdaterError::MissingUid),
            Some(uid) => Ok(data_file_name(uid@, name_or_fallback(workflow.name))),
        }
    }
}

/// The file that holds a downloaded release, below the cache folder; it takes a
/// cache folder and then an id.
pub open spec fn release_file<E>(workflow: Workflow) -> Result<Seq<char>, UpdaterError<E>> {
    if !workflow.has_cache_dir {
        Err(UpdaterError::MissingCacheDir)
    } else {
        match workflow.uid {
            None => Err(UpdaterError::MissingUid),
            Some(uid) => Ok(release_file_name(uid@)),
        }
    }
}

/// What a named file, or the error in its place, says.
pub open spec fn file_view<E>(r: Result<String, UpdaterError<E>>) -> Result<
    Seq<char>,
    UpdaterError<E>,
> {
    match r {
        Ok(file) => Ok(file@),
        Err(e) => Err(e),
    }
}

/// Names the file that holds the updater's state, below the data folder.
///
/// # Errors
/// [`UpdaterError::MissingDataDir`] where no data folder is known, else
/// [`UpdaterError::MissingUid`] where the workflow has no id.
pub fn build_data_fn<E>(workflow: &Workflow) -> (r: Result<String, UpdaterError<E>>)
    ensures
        file_view(r) == data_file::<E>(*workflow),
{
    if !workflow.has_data_dir {
        return Err(UpdaterError::MissingDataDir);
    }
    match &workflow.uid {
        None => Err(UpdaterError::MissingUid),
        Some(uid) => {
            let name = match &workflow.name {
                Some(name) => sanitize(name.as_str()),
                None => sanitize("YouForgotTo/フ:NameYourOwnWork}flowッ"),
            };
            Ok(uid.clone().concat("-").concat(name.as_str()).concat("-updater.json"))
        },
    }
}

/// Puts another file name at the end of a path that ends in one.
pub fn with_file_name(path: &str, name: &str) -> (r: String)
    ensures
        r@ == sibling(path@, name@),
{
    let mut n: usize = path.unicode_len();
    assert(path@.take(n as int) =~= path@);
    while n > 0 && path.get_char(n - 1) != '/'
        invariant
            n <= path@.len(),
            folder_len(path@) == folder_len(path@.take(n as int)),
        decreases n,
    {
        assert(path@.take(n as int).drop_last() =~= path@.take(n - 1));
        n = n - 1;
    }
    path.substring_char(0, n).to_owned().concat(name)
}

/// Names the file that holds a downloaded release, below the cache folder.
///
/// # Errors
/// [`UpdaterError::MissingCacheDir`] where no cache folder is known, else
/// [`UpdaterError::MissingUid`] where the workflow has no id.
pub fn build_release_fn<E>(workflow: &Workflow) -> (r: Result<String, UpdaterError<E>>)
    ensures
        file_view(r) == release_file::<E>(*workflow),
{
    if !workflow.has_cache_dir {
        return Err(UpdaterError::MissingCacheDir);
    }
    match &workflow.uid {
        None => Err(UpdaterError::MissingUid),
        Some(uid) => Ok(
            "latest_release_".to_owned().concat(uid.as_str()).concat(".alfredworkflow"),
        ),
    }
}

} // verus!
