//! How a file is written: a file that could not be written whole is removed.

use vstd::prelude::*;
use crate::error::UpdaterError;
use crate::event::{Event, EventView};
use crate::names::{build_data_fn, data_file, Workflow};
use crate::state::SavedState;
use crate::updater::Updater;

verus! {

/// What the writing of a file waits for.
pub enum Store<E> {
    /// Make the folder that `file` goes to.
    MakeFolder { file: String },
    /// Write `file`.
    WriteFile { file: String },
    /// Remove what there is of `file`.
    RemoveFile { file: String, failure: UpdaterError<E> },
    /// Nothing: the file was written, or could not be.
    Done(Result<(), UpdaterError<E>>),
}

/// What a [`Store`] says.
#[verifier::ext_equal]
pub enum StoreView<E> {
    MakeFolder { file: Seq<char> },
    WriteFile { file: Seq<char> },
    RemoveFile { file: Seq<char>, failure: UpdaterError<E> },
    Done(Result<(), UpdaterError<E>>),
}

impl<E> View for Store<E> {
    type V = StoreView<E>;

    open spec fn view(&self) -> StoreView<E> {
        match *self {
            Store::MakeFolder { file } => StoreView::MakeFolder { file: file@ },
            Store::WriteFile { file } => StoreView::WriteFile { file: file@ },
            Store::RemoveFile { file, failure } => StoreView::RemoveFile { file: file@, failure },
            Store::Done(r) => StoreView::Done(r),
        }
    }
}

/// How the saving of an updater's state starts.
pub open spec fn save_start<E>(workflow: Workflow) -> StoreView<E> {
    match data_file::<E>(workflow) {
        Err(e) => StoreView::Done(Err(e)),
        Ok(file) => StoreView::MakeFolder { file },
    }
}

/// How the writing of a file goes on after the outcome of what it waited for. A
/// file that failed is removed, and whether that works does not matter: the
/// error is that of the writing. An outcome of something else changes nothing.
pub open spec fn store_next<E>(pending: StoreView<E>, event: EventView<E>) -> StoreView<E> {
    match (pending, event) {
        (StoreView::MakeFolder { file }, EventView::FolderMade(r)) => match r {
            Ok(_) => StoreView::WriteFile { file },
            Err(e) => StoreView::Done(Err(e)),
        },
        (StoreView::WriteFile { file }, EventView::FileWritten(r)) => match r {
            Ok(_) => StoreView::Done(Ok(())),
            Err(e) => StoreView::RemoveFile { file, failure: e },
        },
        (StoreView::RemoveFile { file, failure }, EventView::FileRemoved(_)) => StoreView::Done(
            Err(failure),
        ),
        _ => pending,
    }
}

impl<T> Updater<T> {
    /// Starts to save the updater's state to the data file; says also what the
    /// file has to hold.
    pub fn save<E>(&self, workflow: &Workflow) -> (r: (Store<E>, SavedState))
        ensures
            r.0@ == save_start::<E>(*workflow),
            r.1@ == self@.saved_part(),
    {
        let store = match build_data_fn::<E>(workflow) {
            Err(e) => Store::Done(Err(e)),
            Ok(file) => Store::MakeFolder { file },
        };
        (store, self.state.to_saved())
    }
}

impl<E> Store<E> {
    /// Starts to write the outcome of a check to `file`, in a folder that is
    /// there.
    pub fn write_last_check_status(file: String) -> (r: Store<E>)
        ensures
            r@ == (StoreView::<E>::WriteFile { file: file@ }),
    {
        Store::WriteFile { file }
    }

    /// Goes on after the outcome of what the writing waited for.
    pub fn resume(self, event: Event<E>) -> (r: Store<E>)
        ensures
            r@ == store_next(self@, event@),
    {
        match (self, event) {
            (Store::MakeFolder { file }, Event::FolderMade(r)) => match r {
                Ok(_) => Store::WriteFile { file },
                Err(e) => Store::Done(Err(e)),
            },
            (Store::WriteFile { file }, Event::FileWritten(r)) => match r {
                Ok(_) => Store::Done(Ok(())),
                Err(e) => Store::RemoveFile { file, failure: e },
            },
            (Store::RemoveFile { file, failure }, Event::FileRemoved(_)) => Store::Done(
                Err(failure),
            ),
            (pending, _) => pending,
        }
    }
}

} // verus!
