//! How the latest release is downloaded.

use vstd::prelude::*;
use crate::error::UpdaterError;
use crate::event::{Event, EventView};
use crate::names::{build_release_fn, release_file, Workflow};
use crate::updater::Updater;

verus! {

/// What a download waits for.
pub enum Download<E> {
    /// Ask the releaser where the release is.
    FetchUrl,
    /// Ask the server for `url`; an answer that reports a failure counts as one.
    Request { url: String },
    /// Write what the server sends to `file`, below the cache folder.
    WriteFile { file: String },
    /// Remove what there is of `file`.
    RemoveFile { file: String, failure: UpdaterError<E> },
    /// Nothing: this file below the cache folder holds the release, or none does.
    Done(Result<String, UpdaterError<E>>),
}

/// What a [`Download`] says.
#[verifier::ext_equal]
pub enum DownloadView<E> {
    FetchUrl,
    Request { url: Seq<char> },
    WriteFile { file: Seq<char> },
    RemoveFile { file: Seq<char>, failure: UpdaterError<E> },
    Done(Result<Seq<char>, UpdaterError<E>>),
}

impl<E> View for Download<E> {
    type V = DownloadView<E>;

    open spec fn view(&self) -> DownloadView<E> {
        match *self {
            Download::FetchUrl => DownloadView::FetchUrl,
            Download::Request { url } => DownloadView::Request { url: url@ },
            Download::WriteFile { file } => DownloadView::WriteFile { file: file@ },
            Download::RemoveFile { file, failure } => DownloadView::RemoveFile {
                file: file@,
                failure,
            },
            Download::Done(Ok(file)) => DownloadView::Done(Ok(file@)),
            Download::Done(Err(e)) => DownloadView::Done(Err(e)),
        }
    }
}

/// How a download goes on after the outcome of what it waited for. The file is
/// named once the server has answered; a file that failed is removed. An outcome
/// of something else changes nothing.
pub open spec fn download_next<E>(
    pending: DownloadView<E>,
    event: EventView<E>,
    workflow: Workflow,
) -> DownloadView<E> {
    match (pending, event) {
        (DownloadView::FetchUrl, EventView::DownloadableUrl(r)) => match r {
            Ok(url) => DownloadView::Request { url },
            Err(e) => DownloadView::Done(Err(e)),
        },
        (DownloadView::Request { url }, EventView::Responded(r)) => match r {
            Ok(_) => match release_file::<E>(workflow) {
                Ok(file) => DownloadView::WriteFile { file },
                Err(e) => DownloadView::Done(Err(e)),
            },
            Err(e) => DownloadView::Done(Err(e)),
        },
        (DownloadView::WriteFile { file }, EventView::FileWritten(r)) => match r {
            Ok(_) => DownloadView::Done(Ok(file)),
            Err(e) => DownloadView::RemoveFile { file, failure: e },
        },
        (
            DownloadView::RemoveFile { file, failure },
            EventView::FileRemoved(_),
        ) => DownloadView::Done(Err(failure)),
        _ => pending,
    }
}

impl<T> Updater<T> {
    /// Starts to download the latest release into the workflow's cache folder.
    pub fn download_latest<E>(&self) -> (r: Download<E>)
        ensures
            r@ == DownloadView::<E>::FetchUrl,
    {
        Download::FetchUrl
    }
}

impl<E> Download<E> {
    /// Goes on after the outcome of what the download waited for.
    pub fn resume(self, event: Event<E>, workflow: &Workflow) -> (r: Download<E>)
        ensures
            r@ == download_next(self@, event@, *workflow),
    {
        match (self, event) {
            (Download::FetchUrl, Event::DownloadableUrl(r)) => match r {
                Ok(url) => Download::Request { url },
                Err(e) => Download::Done(Err(e)),
            },
            (Download::Request { url }, Event::Responded(r)) => match r {
                Ok(_) => match build_release_fn::<E>(workflow) {
                    Ok(file) => Download::WriteFile { file },
                    Err(e) => Download::Done(Err(e)),
                },
                Err(e) => Download::Done(Err(e)),
            },
            (Download::WriteFile { file }, Event::FileWritten(r)) => match r {
                Ok(_) => Download::Done(Ok(file)),
                Err(e) => Download::RemoveFile { file, failure: e },
            },
            (Download::RemoveFile { file, failure }, Event::FileRemoved(_)) => Download::Done(
                Err(failure),
            ),
            (pending, _) => pending,
        }
    }
}

} // verus!
