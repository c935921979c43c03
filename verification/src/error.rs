//! What can go wrong.

use vstd::prelude::*;

verus! {

/// Why an operation failed. `E` is the error of the program around the library,
/// which reads files and talks to servers.
#[derive(Debug, PartialEq, Eq)]
pub enum UpdaterError<E> {
    /// No folder for the workflow's data is known.
    MissingDataDir,
    /// No folder for the workflow's cache is known.
    MissingCacheDir,
    /// The workflow's unique id is not known.
    MissingUid,
    /// The updater has not saved its state yet.
    MissingDataFile,
    /// The workflow's version is not a semantic version; holds the parser's
    /// message.
    InvalidVersion(String),
    /// The worker was asked for its answer before it was set up.
    NotInitialized,
    /// The worker was set up without a way to hear from it.
    NoReceiver,
    /// The worker reported this error to a check that answers with a report of its
    /// own: a message that holds the error's debug text.
    WorkerFailed(Box<UpdaterError<E>>),
    /// A file, the network or the worker failed.
    Outside(E),
}

impl<E> UpdaterError<E> {
    /// The words for an error of the library's own. What a failed worker's error
    /// looks like in debug text only the surrounding program knows.
    pub open spec fn words(self) -> Option<Seq<char>> {
        match self {
            UpdaterError::MissingDataDir => Some("missing env variable for data dir"@),
            UpdaterError::MissingCacheDir => Some("missing env variable for cache dir"@),
            UpdaterError::MissingUid => Some("missing env variable for uid"@),
            UpdaterError::MissingDataFile => Some("missing updater data file"@),
            UpdaterError::InvalidVersion(message) => Some(message@),
            UpdaterError::NotInitialized => Some("you need to use init() metheod first."@),
            UpdaterError::NoReceiver => Some("you need to use init() correctly!"@),
            UpdaterError::WorkerFailed(_) => None,
            UpdaterError::Outside(_) => None,
        }
    }

    /// Words for the error, unless they are the surrounding program's to find.
    pub fn message(&self) -> (r: Option<&str>)
        ensures
            r is Some <==> self.words() is Some,
            r is Some ==> r->0@ == self.words()->0,
    {
        match self {
            UpdaterError::MissingDataDir => Some("missing env variable for data dir"),
            UpdaterError::MissingCacheDir => Some("missing env variable for cache dir"),
            UpdaterError::MissingUid => Some("missing env variable for uid"),
            UpdaterError::MissingDataFile => Some("missing updater data file"),
            UpdaterError::InvalidVersion(message) => Some(message.as_str()),
            UpdaterError::NotInitialized => Some("you need to use init() metheod first."),
            UpdaterError::NoReceiver => Some("you need to use init() correctly!"),
            UpdaterError::WorkerFailed(_) => None,
            UpdaterError::Outside(_) => None,
        }
    }
}

} // verus!
