//! What the contracts say of a value is all of what the value holds.

use vstd::prelude::*;
use crate::check::{Check, CheckView};
use crate::download::{Download, DownloadView};
use crate::error::UpdaterError;
use crate::event::{status_view, Event, EventView};
use crate::names::file_view;
use crate::state::{MPSCState, SavedState, UpdateInfo, UpdaterState};
use crate::store::{Store, StoreView};
use crate::updater::{loaded_view, version_view, EnvVar, Updater};
use crate::version::{parse_view, Identifier, IdentifierView, Version};
use crate::worker::{Init, InitView, Mailbox, MailboxView, Worker, WorkerView};

verus! {

/// An identifier shows its number or its word.
pub proof fn identifier_shows_all(n: u64, word: String)
    ensures
        Identifier::Numeric(n)@ == IdentifierView::Numeric(n),
        Identifier::AlphaNumeric(word)@ == IdentifierView::AlphaNumeric(word@),
{
}

/// A version shows its numbers and each part of its pre-release and build metadata.
pub proof fn version_shows_all(v: Version)
    ensures
        v@.major == v.major,
        v@.minor == v.minor,
        v@.patch == v.patch,
        v@.pre.len() == v.pre@.len(),
        v@.build.len() == v.build@.len(),
        forall|i: int| 0 <= i < v.pre@.len() ==> #[trigger] v@.pre[i] == v.pre@[i]@,
        forall|i: int| 0 <= i < v.build@.len() ==> #[trigger] v@.build[i] == v.build@[i]@,
{
}

/// What an updater remembers shows whole, and so does what is saved of it.
pub proof fn state_shows_all(s: UpdaterState, saved: SavedState, w: MPSCState, info: UpdateInfo)
    ensures
        info@.avail_version == info.avail_version@,
        info@.downloadable_url == info.downloadable_url@,
        w@.has_receiver == w.has_receiver,
        w@.recvd_payload is Some <==> w.recvd_payload is Some,
        w.recvd_payload is Some ==> (w@.recvd_payload->0 is Some <==> w.recvd_payload->0 is Some),
        w.recvd_payload is Some && w.recvd_payload->0 is Some ==> w@.recvd_payload->0->0
            == w.recvd_payload->0->0@,
        s@.current_version == s.current_version@,
        s@.avail_version is Some <==> s.avail_version is Some,
        s.avail_version is Some ==> s@.avail_version->0 == s.avail_version->0@,
        s@.last_check == s.last_check,
        s@.worker_state is Some <==> s.worker_state is Some,
        s.worker_state is Some ==> s@.worker_state->0 == s.worker_state->0@,
        s@.update_interval == s.update_interval,
        saved@.current_version == saved.current_version@,
        saved@.avail_version is Some <==> saved.avail_version is Some,
        saved.avail_version is Some ==> saved@.avail_version->0 == saved.avail_version->0@,
        saved@.last_check == saved.last_check,
{
}

/// An updater shows what it remembers; a variable its name and its value.
pub proof fn updater_shows_all<T>(u: Updater<T>, var: EnvVar)
    ensures
        u@ == u.state@,
        var@.0 == var.name@,
        var@.1 == var.value@,
{
}

/// An outcome shows what came of it, a value or an error.
pub proof fn event_shows_all<E>(
    done: Result<(), UpdaterError<E>>,
    v: Version,
    text: String,
    info: UpdateInfo,
    e: UpdaterError<E>,
)
    ensures
        Event::Saved(done)@ == EventView::Saved(done),
        Event::StatusWritten(done)@ == EventView::StatusWritten(done),
        Event::WorkerStarted(done)@ == EventView::WorkerStarted(done),
        Event::Responded(done)@ == EventView::Responded(done),
        Event::FileWritten(done)@ == EventView::FileWritten(done),
        Event::FolderMade(done)@ == EventView::FolderMade(done),
        Event::FileRemoved(done)@ == EventView::FileRemoved(done),
        Event::<E>::LatestVersion(Ok(v))@ == EventView::<E>::LatestVersion(Ok(v@)),
        Event::<E>::LatestVersion(Err(e))@ == EventView::<E>::LatestVersion(Err(e)),
        Event::<E>::DownloadableUrl(Ok(text))@ == EventView::<E>::DownloadableUrl(Ok(text@)),
        Event::<E>::DownloadableUrl(Err(e))@ == EventView::<E>::DownloadableUrl(Err(e)),
        Event::<E>::StatusRead(Ok(Some(info)))@ == EventView::<E>::StatusRead(Ok(Some(info@))),
        Event::<E>::StatusRead(Ok(None))@ == EventView::<E>::StatusRead(Ok(None)),
        Event::<E>::StatusRead(Err(e))@ == EventView::<E>::StatusRead(Err(e)),
        Event::<E>::Received(Ok(Ok(Some(info))))@ == EventView::<E>::Received(
            Ok(Ok(Some(info@))),
        ),
        Event::<E>::Received(Ok(Ok(None)))@ == EventView::<E>::Received(Ok(Ok(None))),
        Event::<E>::Received(Ok(Err(e)))@ == EventView::<E>::Received(Ok(Err(e))),
        Event::<E>::Received(Err(e))@ == EventView::<E>::Received(Err(e)),
{
}

/// A check shows what it waits for, or its answer.
pub proof fn check_shows_all<E>(
    file: String,
    version: Version,
    info: UpdateInfo,
    flag: bool,
    failure: Option<UpdaterError<E>>,
    answer: Result<bool, UpdaterError<E>>,
)
    ensures
        Check::<E>::SaveFirst@ == CheckView::<E>::SaveFirst,
        (Check::<E>::FetchVersion { file })@ == (CheckView::<E>::FetchVersion { file: file@ }),
        (Check::<E>::FetchUrl { file, version, update_avail: flag })@ == (CheckView::<
            E,
        >::FetchUrl { file: file@, version: version@, update_avail: flag }),
        (Check::<E>::WriteStatus { file, info, update_avail: flag })@ == (CheckView::<
            E,
        >::WriteStatus { file: file@, info: info@, update_avail: flag }),
        (Check::<E>::SaveRelease { update_avail: flag })@ == (CheckView::<E>::SaveRelease {
            update_avail: flag,
        }),
        (Check::<E>::ReadStatus { file })@ == (CheckView::<E>::ReadStatus { file: file@ }),
        (Check::<E>::Receive { blocking: flag })@ == (CheckView::<E>::Receive { blocking: flag }),
        (Check::SaveReceived { failure })@ == (CheckView::SaveReceived { failure }),
        Check::Done(answer)@ == CheckView::Done(answer),
{
}

/// The setting-up of a worker, and the worker, show what they wait for or what they
/// end with.
pub proof fn worker_shows_all<E>(
    file: String,
    version: Version,
    info: UpdateInfo,
    mailbox: Mailbox,
    e: UpdaterError<E>,
)
    ensures
        Mailbox::Filled(Some(info))@ == MailboxView::Filled(Some(info@)),
        Mailbox::Filled(None)@ == MailboxView::Filled(None),
        Mailbox::FromWorker@ == MailboxView::FromWorker,
        Init::<E>::Save@ == InitView::<E>::Save,
        (Init::<E>::StartWorker { file })@ == (InitView::<E>::StartWorker { file: file@ }),
        (Init::<E>::ReadStatus { file })@ == (InitView::<E>::ReadStatus { file: file@ }),
        Init::<E>::Done(Ok(mailbox))@ == InitView::<E>::Done(Ok(mailbox@)),
        Init::<E>::Done(Err(e))@ == InitView::<E>::Done(Err(e)),
        (Worker::<E>::FetchVersion { file })@ == (WorkerView::<E>::FetchVersion { file: file@ }),
        (Worker::<E>::FetchUrl { file, version })@ == (WorkerView::<E>::FetchUrl {
            file: file@,
            version: version@,
        }),
        (Worker::<E>::WriteStatus { file, info })@ == (WorkerView::<E>::WriteStatus {
            file: file@,
            info: info@,
        }),
        Worker::<E>::Send(Ok(Some(info)))@ == WorkerView::<E>::Send(Ok(Some(info@))),
        Worker::<E>::Send(Ok(None))@ == WorkerView::<E>::Send(Ok(None)),
        Worker::<E>::Send(Err(e))@ == WorkerView::<E>::Send(Err(e)),
{
}

/// A download, and the writing of a file, show what they wait for or what they end
/// with.
pub proof fn files_show_all<E>(
    file: String,
    failure: UpdaterError<E>,
    done: Result<(), UpdaterError<E>>,
)
    ensures
        Download::<E>::FetchUrl@ == DownloadView::<E>::FetchUrl,
        (Download::<E>::Request { url: file })@ == (DownloadView::<E>::Request { url: file@ }),
        (Download::<E>::WriteFile { file })@ == (DownloadView::<E>::WriteFile { file: file@ }),
        (Download::RemoveFile { file, failure })@ == (DownloadView::RemoveFile {
            file: file@,
            failure,
        }),
        Download::<E>::Done(Ok(file))@ == DownloadView::<E>::Done(Ok(file@)),
        Download::<E>::Done(Err(failure))@ == DownloadView::<E>::Done(Err(failure)),
        (Store::<E>::MakeFolder { file })@ == (StoreView::<E>::MakeFolder { file: file@ }),
        (Store::<E>::WriteFile { file })@ == (StoreView::<E>::WriteFile { file: file@ }),
        (Store::RemoveFile { file, failure })@ == (StoreView::RemoveFile { file: file@, failure }),
        Store::Done(done)@ == StoreView::Done(done),
{
}

/// What is said of a result is its value or its error.
pub proof fn results_show_all<E>(
    info: UpdateInfo,
    state: UpdaterState,
    version: Version,
    text: String,
    e: UpdaterError<E>,
)
    ensures
        status_view::<E>(Ok(Some(info))) == Ok::<_, UpdaterError<E>>(Some(info@)),
        status_view::<E>(Ok(None)) is Ok && status_view::<E>(Ok(None))->Ok_0 is None,
        status_view::<E>(Err(e)) is Err && status_view::<E>(Err(e))->Err_0 == e,
        file_view::<E>(Ok(text)) == Ok::<_, UpdaterError<E>>(text@),
        file_view::<E>(Err(e)) is Err && file_view::<E>(Err(e))->Err_0 == e,
        loaded_view::<E>(Ok(state)) == Ok::<_, UpdaterError<E>>(state@),
        loaded_view::<E>(Err(e)) is Err && loaded_view::<E>(Err(e))->Err_0 == e,
        parse_view(Ok(version)) == Ok::<_, Seq<char>>(version@),
        parse_view(Err(text)) is Err && parse_view(Err(text))->Err_0 == text@,
        version_view(Some(Ok(version))) == Some(Ok::<_, Seq<char>>(version@)),
        version_view(Some(Err(text))) is Some && version_view(Some(Err(text)))->0 is Err
            && version_view(Some(Err(text)))->0->Err_0 == text@,
        version_view(None) is None,
{
}

} // verus!
