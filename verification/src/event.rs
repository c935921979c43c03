//! What the world answers to an updater that asked it for something.

use vstd::prelude::*;
use crate::error::UpdaterError;
use crate::state::{release, UpdateInfo, UpdateInfoView};
use crate::version::{Version, VersionView};

verus! {

/// The outcome of something that was done outside.
pub enum Event<E> {
    /// The updater's state was written to the data file, or not.
    Saved(Result<(), UpdaterError<E>>),
    /// The releaser named the version of the latest release, or not.
    LatestVersion(Result<Version, UpdaterError<E>>),
    /// The releaser named the address of the latest release, or not.
    DownloadableUrl(Result<String, UpdaterError<E>>),
    /// The outcome of the check was written to its file, or not.
    StatusWritten(Result<(), UpdaterError<E>>),
    /// The outcome of the last check was read from its file, or not.
    StatusRead(Result<Option<UpdateInfo>, UpdaterError<E>>),
    /// The worker was started, or not.
    WorkerStarted(Result<(), UpdaterError<E>>),
    /// The worker's message, the release it found or its error, came in, or
    /// not; why not is worded by the surrounding program.
    Received(Result<Result<Option<UpdateInfo>, UpdaterError<E>>, UpdaterError<E>>),
    /// The server sent the release, or not.
    Responded(Result<(), UpdaterError<E>>),
    /// The file was written, or not.
    FileWritten(Result<(), UpdaterError<E>>),
    /// The folder was made, or not.
    FolderMade(Result<(), UpdaterError<E>>),
    /// The file was removed, or not.
    FileRemoved(Result<(), UpdaterError<E>>),
}

/// What an [`Event`] says.
#[verifier::ext_equal]
pub enum EventView<E> {
    Saved(Result<(), UpdaterError<E>>),
    LatestVersion(Result<VersionView, UpdaterError<E>>),
    DownloadableUrl(Result<Seq<char>, UpdaterError<E>>),
    StatusWritten(Result<(), UpdaterError<E>>),
    StatusRead(Result<Option<UpdateInfoView>, UpdaterError<E>>),
    WorkerStarted(Result<(), UpdaterError<E>>),
    Received(Result<Result<Option<UpdateInfoView>, UpdaterError<E>>, UpdaterError<E>>),
    Responded(Result<(), UpdaterError<E>>),
    FileWritten(Result<(), UpdaterError<E>>),
    FolderMade(Result<(), UpdaterError<E>>),
    FileRemoved(Result<(), UpdaterError<E>>),
}

/// What a status that was read or received, or the error in its place, says.
pub open spec fn status_view<E>(r: Result<Option<UpdateInfo>, UpdaterError<E>>) -> Result<
    Option<UpdateInfoView>,
    UpdaterError<E>,
> {
    match r {
        Ok(info) => Ok(release(info)),
        Err(e) => Err(e),
    }
}

impl<E> View for Event<E> {
    type V = EventView<E>;

    open spec fn view(&self) -> EventView<E> {
        match *self {
            Event::Saved(r) => EventView::Saved(r),
            Event::LatestVersion(Ok(v)) => EventView::LatestVersion(Ok(v@)),
            Event::LatestVersion(Err(e)) => EventView::LatestVersion(Err(e)),
            Event::DownloadableUrl(Ok(url)) => EventView::DownloadableUrl(Ok(url@)),
            Event::DownloadableUrl(Err(e)) => EventView::DownloadableUrl(Err(e)),
            Event::StatusWritten(r) => EventView::StatusWritten(r),
            Event::StatusRead(r) => EventView::StatusRead(status_view(r)),
            Event::WorkerStarted(r) => EventView::WorkerStarted(r),
            Event::Received(Ok(message)) => EventView::Received(Ok(status_view(message))),
            Event::Received(Err(e)) => EventView::Received(Err(e)),
            Event::Responded(r) => EventView::Responded(r),
            Event::FileWritten(r) => EventView::FileWritten(r),
            Event::FolderMade(r) => EventView::FolderMade(r),
            Event::FileRemoved(r) => EventView::FileRemoved(r),
        }
    }
}

} // verus!
