//! What comes of an operation from its beginning to its end: which answers the
//! outside gives, and what the workflow then gets.

use vstd::prelude::*;
use crate::check::{async_start, check_next, check_start, strict_next, CheckView};
use crate::download::{download_next, DownloadView};
use crate::error::UpdaterError;
use crate::event::EventView;
use crate::moment::{representable, Moment};
use crate::names::{
    data_file, folder_len, name_or_fallback, release_file, sanitized, sibling, Workflow,
};
use crate::order::{precedence_is_total, precedence_is_transitive};
use crate::releaser::GithubReleaser;
use crate::state::{
    MPSCStateView, SavedState, SavedStateView, UpdateInfoView, UpdaterState, UpdaterStateView,
};
use crate::store::{save_start, store_next, Store, StoreView};
use crate::updater::{load, named_version, opens_as, Opened, Updater};
use crate::version::{parsed_version, plain_version, precedes, tag_text, VersionView};
use crate::worker::{init_next, init_start, worker_next, InitView, MailboxView, WorkerView};

verus! {

/// `path` is a folder part, empty or with its closing slash, and a file name.
pub open spec fn has_parts(path: Seq<char>, folder: Seq<char>, file: Seq<char>) -> bool {
    &&& path == folder + file
    &&& folder.len() == 0 || folder.last() == '/'
    &&& forall|i: int| 0 <= i < file.len() ==> file[i] != '/'
}

/// Every path has a folder part and a file name.
pub proof fn every_path_has_parts(path: Seq<char>) -> (r: (Seq<char>, Seq<char>))
    ensures
        has_parts(path, r.0, r.1),
    decreases path.len(),
{
    if path.len() == 0 || path.last() == '/' {
        assert(path =~= path + Seq::<char>::empty());
        (path, Seq::empty())
    } else {
        let (folder, file) = every_path_has_parts(path.drop_last());
        let whole = file.push(path.last());
        assert(path =~= path.drop_last().push(path.last()));
        assert(path =~= folder + whole);
        (folder, whole)
    }
}

proof fn lemma_folder_len(path: Seq<char>, folder: Seq<char>, file: Seq<char>)
    requires
        has_parts(path, folder, file),
    ensures
        folder_len(path) == folder.len(),
    decreases path.len(),
{
    if file.len() > 0 {
        assert(path.last() == file.last());
        assert(path.drop_last() =~= folder + file.drop_last());
        lemma_folder_len(path.drop_last(), folder, file.drop_last());
    } else {
        assert(path =~= folder);
    }
}

/// Another file name at the end of a path takes the place of the old one and
/// leaves the folder part alone.
pub proof fn sibling_stays_in_folder(
    path: Seq<char>,
    folder: Seq<char>,
    file: Seq<char>,
    name: Seq<char>,
)
    requires
        has_parts(path, folder, file),
    ensures
        sibling(path, name) == folder + name,
{
    lemma_folder_len(path, folder, file);
    assert(path.take(folder.len() as int) =~= folder);
}

/// Where no worker is set up and a check is due, the server is asked, and the check
/// answers whether the version that the server named is newer than the workflow.
/// Exactly that version, at the address that the server named, is what the status
/// file next to the data file gets and what the updater remembers; nothing else of
/// the updater changes but the time of the last check.
pub proof fn due_check_goes_by_the_server<E>(
    s: UpdaterStateView,
    workflow: Workflow,
    folder: Seq<char>,
    file: Seq<char>,
    now: Moment,
    version: VersionView,
    url: Seq<char>,
    named: Moment,
    addressed: Moment,
    written: Moment,
    saved: Moment,
)
    requires
        s.worker_state is None,
        s.last_check is Some,
        s.due(now),
        data_file::<E>(workflow) is Ok,
        has_parts(data_file::<E>(workflow)->Ok_0, folder, file),
    ensures
        ({
            let status = folder + "last_check_status.json"@;
            let release = UpdateInfoView { avail_version: version, downloadable_url: url };
            let (s1, p1) = check_start::<E>(s, workflow, now);
            let (s2, p2) = check_next(s1, p1, EventView::LatestVersion(Ok(version)), named);
            let (s3, p3) = check_next(s2, p2, EventView::DownloadableUrl(Ok(url)), addressed);
            let (s4, p4) = check_next(s3, p3, EventView::StatusWritten(Ok(())), written);
            let (s5, p5) = check_next(s4, p4, EventView::Saved(Ok(())), saved);
            &&& p1 == (CheckView::<E>::FetchVersion { file: status })
            &&& p2 is FetchUrl
            &&& p3 is WriteStatus
            &&& p3->WriteStatus_file == status
            &&& p3->WriteStatus_info == release
            &&& s3 == s
            &&& p4 is SaveRelease
            &&& s4 == (UpdaterStateView {
                avail_version: Some(release),
                last_check: Some(written),
                ..s
            })
            &&& s5 == s4
            &&& p5 == CheckView::<E>::Done(Ok(precedes(s.current_version, version)))
        }),
{
    sibling_stays_in_folder(
        data_file::<E>(workflow)->Ok_0,
        folder,
        file,
        "last_check_status.json"@,
    );
}

/// A due check ends in the first error that it meets. Up to the writing of the
/// status file the updater is then as it was before; an error in the last step, the
/// saving, leaves it with the release that was found.
pub proof fn due_check_ends_in_first_error<E>(
    s: UpdaterStateView,
    workflow: Workflow,
    now: Moment,
    version: VersionView,
    url: Seq<char>,
    written: Moment,
    e: UpdaterError<E>,
)
    requires
        s.worker_state is None,
        s.last_check is Some,
        s.due(now),
        data_file::<E>(workflow) is Ok,
    ensures
        ({
            let failed = CheckView::<E>::Done(Err(e));
            let (s1, p1) = check_start::<E>(s, workflow, now);
            let (s2, p2) = check_next(s1, p1, EventView::LatestVersion(Ok(version)), now);
            let (s3, p3) = check_next(s2, p2, EventView::DownloadableUrl(Ok(url)), now);
            let (s4, p4) = check_next(s3, p3, EventView::StatusWritten(Ok(())), written);
            &&& check_next(s1, p1, EventView::LatestVersion(Err(e)), now) == (s, failed)
            &&& check_next(s2, p2, EventView::DownloadableUrl(Err(e)), now) == (s, failed)
            &&& check_next(s3, p3, EventView::StatusWritten(Err(e)), now) == (s, failed)
            &&& check_next(s4, p4, EventView::Saved(Err(e)), now) == (s4, failed)
        }),
{
}

/// What a check has found it keeps to its end, even if the updater is changed in the
/// meantime: the version, the file, the answer and an error each come out as they
/// went in.
pub proof fn check_keeps_what_it_found<E>(
    s: UpdaterStateView,
    file: Seq<char>,
    version: VersionView,
    url: Seq<char>,
    answer: bool,
    info: UpdateInfoView,
    now: Moment,
    e: UpdaterError<E>,
)
    ensures
        check_next(
            s,
            CheckView::<E>::FetchVersion { file },
            EventView::LatestVersion(Ok(version)),
            now,
        ) == (
            s,
            CheckView::<E>::FetchUrl {
                file,
                version,
                update_avail: precedes(s.current_version, version),
            },
        ),
        check_next(
            s,
            CheckView::<E>::FetchUrl { file, version, update_avail: answer },
            EventView::DownloadableUrl(Ok(url)),
            now,
        ) == (
            s,
            CheckView::<E>::WriteStatus {
                file,
                info: UpdateInfoView { avail_version: version, downloadable_url: url },
                update_avail: answer,
            },
        ),
        check_next(
            s,
            CheckView::<E>::WriteStatus { file, info, update_avail: answer },
            EventView::StatusWritten(Ok(())),
            now,
        ) == (
            UpdaterStateView { avail_version: Some(info), last_check: Some(now), ..s },
            CheckView::<E>::SaveRelease { update_avail: answer },
        ),
        check_next(
            s,
            CheckView::<E>::SaveRelease { update_avail: answer },
            EventView::Saved(Ok(())),
            now,
        ) == (s, CheckView::<E>::Done(Ok(answer))),
        check_next(
            s,
            CheckView::<E>::SaveRelease { update_avail: answer },
            EventView::Saved(Err(e)),
            now,
        ) == (s, CheckView::<E>::Done(Err(e))),
        check_next(
            s,
            CheckView::<E>::SaveReceived { failure: Some(e) },
            EventView::Saved(Ok(())),
            now,
        ) == (s, CheckView::<E>::Done(Err(e))),
        check_next(
            s,
            CheckView::<E>::ReadStatus { file },
            EventView::StatusRead(Ok(Some(info))),
            now,
        ) == (
            s,
            CheckView::<E>::Done(Ok(precedes(s.current_version, info.avail_version))),
        ),
{
}

/// Where no worker is set up and no check is due, the check answers whether the
/// release in the status file is newer than the workflow. Without such a release,
/// or without a file that can be read, the answer is no. The updater stays as it is.
pub proof fn check_within_interval_goes_by_the_file<E>(
    s: UpdaterStateView,
    workflow: Workflow,
    folder: Seq<char>,
    file: Seq<char>,
    now: Moment,
    release: UpdateInfoView,
    read: Moment,
    e: UpdaterError<E>,
)
    requires
        s.worker_state is None,
        s.last_check is Some,
        !s.due(now),
        data_file::<E>(workflow) is Ok,
        has_parts(data_file::<E>(workflow)->Ok_0, folder, file),
    ensures
        ({
            let (s1, p1) = check_start::<E>(s, workflow, now);
            let no = CheckView::<E>::Done(Ok(false));
            &&& s1 == s
            &&& p1 == (CheckView::<E>::ReadStatus { file: folder + "last_check_status.json"@ })
            &&& check_next(s1, p1, EventView::StatusRead(Ok(Some(release))), read) == (
                s,
                CheckView::<E>::Done(Ok(precedes(s.current_version, release.avail_version))),
            )
            &&& check_next(s1, p1, EventView::StatusRead(Ok(None)), read) == (s, no)
            &&& check_next(s1, p1, EventView::StatusRead(Err(e)), read) == (s, no)
        }),
{
    sibling_stays_in_folder(
        data_file::<E>(workflow)->Ok_0,
        folder,
        file,
        "last_check_status.json"@,
    );
}

/// The first check ever, without a worker, notes the time and nothing else, has the
/// updater saved, and answers no, or with the error of the saving.
pub proof fn first_check_notes_the_time<E>(
    s: UpdaterStateView,
    workflow: Workflow,
    now: Moment,
    saved: Moment,
    e: UpdaterError<E>,
)
    requires
        s.worker_state is None,
        s.last_check is None,
        data_file::<E>(workflow) is Ok,
    ensures
        ({
            let (s1, p1) = check_start::<E>(s, workflow, now);
            &&& s1 == (UpdaterStateView { last_check: Some(now), ..s })
            &&& p1 is SaveFirst
            &&& check_next(s1, p1, EventView::Saved(Ok(())), saved) == (
                s1,
                CheckView::<E>::Done(Ok(false)),
            )
            &&& check_next(s1, p1, EventView::Saved(Err(e)), saved) == (
                s1,
                CheckView::<E>::Done(Err(e)),
            )
        }),
{
}

/// Neither a check without a worker nor the setting-up of one goes anywhere in an
/// environment that gives the data file no name: each ends in the reason for that,
/// and the updater stays as it is.
pub proof fn nameless_data_file_ends_it<E>(s: UpdaterStateView, workflow: Workflow, now: Moment)
    requires
        !workflow.has_data_dir || workflow.uid is None,
    ensures
        ({
            let e: UpdaterError<E> = if workflow.has_data_dir {
                UpdaterError::MissingUid
            } else {
                UpdaterError::MissingDataDir
            };
            &&& s.worker_state is None ==> check_start::<E>(s, workflow, now) == (
                s,
                CheckView::<E>::Done(Err(e)),
            )
            &&& init_start::<E>(s, workflow, now) == (s, InitView::<E>::Done(Err(e)))
            &&& save_start::<E>(workflow) == StoreView::<E>::Done(Err(e))
        }),
{
}

/// Once a worker is set up, the environment and the time have no part in how a check
/// starts. Without a message so far it waits for the worker, or only looks whether
/// it has one where it is asked to; it fails where there is no way to the worker.
/// After a message it answers at once whether the release that the updater remembers
/// is newer than the workflow.
pub proof fn check_with_worker_starts<E>(
    s: UpdaterStateView,
    workflow: Workflow,
    now: Moment,
    try_flag: bool,
)
    ensures
        s.worker_state is None ==> async_start::<E>(s, try_flag) == CheckView::<E>::Done(
            Err(UpdaterError::NotInitialized),
        ),
        s.worker_state is Some ==> ({
            let worker = s.worker_state->0;
            let seen = s.avail_version is Some && precedes(
                s.current_version,
                s.avail_version->0.avail_version,
            );
            &&& check_start::<E>(s, workflow, now) == (s, async_start::<E>(s, false))
            &&& worker.recvd_payload is Some ==> async_start::<E>(s, try_flag) == CheckView::<
                E,
            >::Done(Ok(seen))
            &&& worker.recvd_payload is None && worker.has_receiver ==> async_start::<E>(
                s,
                try_flag,
            ) == (CheckView::<E>::Receive { blocking: !try_flag })
            &&& worker.recvd_payload is None && !worker.has_receiver ==> async_start::<E>(
                s,
                try_flag,
            ) == CheckView::<E>::Done(Err(UpdaterError::NoReceiver))
        }),
{
}

/// The worker's message is what the updater then remembers, as the release that was
/// seen and as the message that came; the check answers whether a release came that
/// is newer than the workflow. Nothing else of the updater changes but the time of
/// the last check, and every later check repeats the answer.
pub proof fn check_answers_by_the_message<E>(
    s: UpdaterStateView,
    blocking: bool,
    message: Option<UpdateInfoView>,
    received: Moment,
    saved: Moment,
    workflow: Workflow,
    later: Moment,
    e: UpdaterError<E>,
)
    requires
        s.worker_state is Some,
    ensures
        ({
            let ready = message is Some && precedes(
                s.current_version,
                message->0.avail_version,
            );
            let worker = MPSCStateView {
                recvd_payload: Some(message),
                has_receiver: s.worker_state->0.has_receiver,
            };
            let pending = CheckView::<E>::Receive { blocking };
            let (s1, p1) = check_next(s, pending, EventView::Received(Ok(Ok(message))), received);
            &&& s1 == (UpdaterStateView {
                avail_version: message,
                worker_state: Some(worker),
                last_check: Some(received),
                ..s
            })
            &&& p1 is SaveReceived
            &&& check_next(s1, p1, EventView::Saved(Ok(())), saved) == (
                s1,
                CheckView::<E>::Done(Ok(ready)),
            )
            &&& check_next(s1, p1, EventView::Saved(Err(e)), saved) == (
                s1,
                CheckView::<E>::Done(Err(e)),
            )
            &&& check_start::<E>(s1, workflow, later) == (s1, CheckView::<E>::Done(Ok(ready)))
        }),
{
}

/// An error that the worker sent is the check's answer, once the time was noted and
/// saved; an error of that saving comes before it. A worker that was not heard from
/// leaves all as it was.
pub proof fn check_passes_on_the_workers_error<E>(
    s: UpdaterStateView,
    blocking: bool,
    sent: UpdaterError<E>,
    received: Moment,
    saved: Moment,
    e: UpdaterError<E>,
)
    ensures
        ({
            let pending = CheckView::<E>::Receive { blocking };
            let (s1, p1) = check_next(s, pending, EventView::Received(Ok(Err(sent))), received);
            &&& s1 == (UpdaterStateView { last_check: Some(received), ..s })
            &&& p1 is SaveReceived
            &&& check_next(s1, p1, EventView::Saved(Ok(())), saved) == (
                s1,
                CheckView::<E>::Done(Err(sent)),
            )
            &&& check_next(s1, p1, EventView::Saved(Err(e)), saved) == (
                s1,
                CheckView::<E>::Done(Err(e)),
            )
            &&& check_next(s, pending, EventView::Received(Err(e)), received) == (
                s,
                CheckView::<E>::Done(Err(e)),
            )
        }),
{
}

/// The strict check differs from the other in one thing: an error that the worker
/// sent ends it at once, wrapped in a report, and the updater stays as it is.
pub proof fn strict_check_reports_the_workers_error<E>(
    s: UpdaterStateView,
    pending: CheckView<E>,
    event: EventView<E>,
    blocking: bool,
    sent: UpdaterError<E>,
    now: Moment,
)
    ensures
        strict_next(
            s,
            CheckView::<E>::Receive { blocking },
            EventView::Received(Ok(Err(sent))),
            now,
        ) == (s, CheckView::<E>::Done(Err(UpdaterError::WorkerFailed(Box::new(sent))))),
        !(pending is Receive && event matches EventView::Received(Ok(Err(_)))) ==> strict_next(
            s,
            pending,
            event,
            now,
        ) == check_next(s, pending, event, now),
{
}

/// Whether the outcome is one that the check waits for.
pub open spec fn check_waits_for<E>(pending: CheckView<E>, event: EventView<E>) -> bool {
    match pending {
        CheckView::SaveFirst => event is Saved,
        CheckView::FetchVersion { .. } => event is LatestVersion,
        CheckView::FetchUrl { .. } => event is DownloadableUrl,
        CheckView::WriteStatus { .. } => event is StatusWritten,
        CheckView::SaveRelease { .. } => event is Saved,
        CheckView::ReadStatus { .. } => event is StatusRead,
        CheckView::Receive { .. } => event is Received,
        CheckView::SaveReceived { .. } => event is Saved,
        CheckView::Done(_) => false,
    }
}

/// An outcome of something that was not waited for changes nothing, in a check, in
/// the setting-up of a worker, in the worker, in a download and in the writing of a
/// file; and what is over stays as it ended.
pub proof fn unexpected_outcome_changes_nothing<E>(
    s: UpdaterStateView,
    check: CheckView<E>,
    init: InitView<E>,
    worker: WorkerView<E>,
    download: DownloadView<E>,
    store: StoreView<E>,
    event: EventView<E>,
    workflow: Workflow,
    now: Moment,
)
    ensures
        !check_waits_for(check, event) ==> check_next(s, check, event, now) == (s, check),
        !(init is Save && event is Saved) && !(init is StartWorker && event is WorkerStarted) && !(
        init is ReadStatus && event is StatusRead) ==> init_next(s, init, event) == (s, init),
        !(worker is FetchVersion && event is LatestVersion) && !(worker is FetchUrl
            && event is DownloadableUrl) && !(worker is WriteStatus && event is StatusWritten)
            ==> worker_next(worker, event) == worker,
        !(download is FetchUrl && event is DownloadableUrl) && !(download is Request
            && event is Responded) && !(download is WriteFile && event is FileWritten) && !(
        download is RemoveFile && event is FileRemoved) ==> download_next(
            download,
            event,
            workflow,
        ) == download,
        !(store is MakeFolder && event is FolderMade) && !(store is WriteFile
            && event is FileWritten) && !(store is RemoveFile && event is FileRemoved)
            ==> store_next(store, event) == store,
{
}

/// A worker that the server named a version and an address sends exactly that
/// version at that address, and before that wrote exactly that to its own file.
pub proof fn worker_sends_what_the_server_named<E>(
    file: Seq<char>,
    version: VersionView,
    url: Seq<char>,
)
    ensures
        ({
            let release = UpdateInfoView { avail_version: version, downloadable_url: url };
            let p0 = WorkerView::<E>::FetchVersion { file };
            let p1 = worker_next(p0, EventView::LatestVersion(Ok(version)));
            let p2 = worker_next(p1, EventView::DownloadableUrl(Ok(url)));
            let p3 = worker_next(p2, EventView::StatusWritten(Ok(())));
            &&& p1 is FetchUrl
            &&& p2 == (WorkerView::<E>::WriteStatus { file, info: release })
            &&& p3 == WorkerView::<E>::Send(Ok(Some(release)))
        }),
{
}

/// A worker sends the first error that it meets.
pub proof fn worker_sends_first_error<E>(
    file: Seq<char>,
    version: VersionView,
    url: Seq<char>,
    e: UpdaterError<E>,
)
    ensures
        ({
            let failed = WorkerView::<E>::Send(Err(e));
            let p0 = WorkerView::<E>::FetchVersion { file };
            let p1 = worker_next(p0, EventView::LatestVersion(Ok(version)));
            let p2 = worker_next(p1, EventView::DownloadableUrl(Ok(url)));
            &&& worker_next(p0, EventView::LatestVersion(Err(e))) == failed
            &&& worker_next(p1, EventView::DownloadableUrl(Err(e))) == failed
            &&& worker_next(p2, EventView::StatusWritten(Err(e))) == failed
        }),
{
}

/// Where a check is due, the setting-up starts a worker for the worker's status file
/// next to the data file. The check that follows waits for what that worker found,
/// and answers whether the version that the server named is newer than the workflow.
pub proof fn due_worker_goes_by_the_server<E>(
    s: UpdaterStateView,
    workflow: Workflow,
    folder: Seq<char>,
    file: Seq<char>,
    now: Moment,
    version: VersionView,
    url: Seq<char>,
    later: Moment,
    received: Moment,
    saved: Moment,
)
    requires
        s.last_check is Some,
        s.due(now),
        data_file::<E>(workflow) is Ok,
        has_parts(data_file::<E>(workflow)->Ok_0, folder, file),
    ensures
        ({
            let status = folder + "last_check_status_async.json"@;
            let release = UpdateInfoView { avail_version: version, downloadable_url: url };
            let (s1, q1) = init_start::<E>(s, workflow, now);
            let (s2, q2) = init_next(s1, q1, EventView::WorkerStarted(Ok(())));
            let w1 = worker_next(
                WorkerView::<E>::FetchVersion { file: q1->StartWorker_file },
                EventView::LatestVersion(Ok(version)),
            );
            let w2 = worker_next(w1, EventView::DownloadableUrl(Ok(url)));
            let w3 = worker_next(w2, EventView::StatusWritten(Ok(())));
            let (s3, p3) = check_start::<E>(s2, workflow, later);
            let (s4, p4) = check_next(s3, p3, EventView::Received(Ok(w3->Send_0)), received);
            let (s5, p5) = check_next(s4, p4, EventView::Saved(Ok(())), saved);
            &&& q1 == (InitView::<E>::StartWorker { file: status })
            &&& q2 == InitView::<E>::Done(Ok(MailboxView::FromWorker))
            &&& w2 == (WorkerView::<E>::WriteStatus { file: status, info: release })
            &&& w3 is Send
            &&& p3 == (CheckView::<E>::Receive { blocking: true })
            &&& s5.avail_version == Some(release)
            &&& s5.last_check == Some(received)
            &&& s5.current_version == s.current_version
            &&& s5.update_interval == s.update_interval
            &&& p5 == CheckView::<E>::Done(Ok(precedes(s.current_version, version)))
        }),
{
    sibling_stays_in_folder(
        data_file::<E>(workflow)->Ok_0,
        folder,
        file,
        "last_check_status_async.json"@,
    );
}

/// An updater with a worker that is set up and was not heard from so far.
pub open spec fn awaiting_worker(s: UpdaterStateView, t: UpdaterStateView) -> bool {
    t == (UpdaterStateView {
        worker_state: Some(MPSCStateView { recvd_payload: None, has_receiver: true }),
        ..s
    })
}

/// The setting-up ends with the worker in place and the rest of the updater as it
/// was, or in the error of starting the worker, and then with no worker.
pub proof fn started_worker_is_awaited<E>(
    s: UpdaterStateView,
    file: Seq<char>,
    e: UpdaterError<E>,
)
    ensures
        ({
            let pending = InitView::<E>::StartWorker { file };
            let (s1, q1) = init_next(s, pending, EventView::WorkerStarted(Ok(())));
            &&& awaiting_worker(s, s1)
            &&& q1 == InitView::<E>::Done(Ok(MailboxView::FromWorker))
            &&& init_next(s, pending, EventView::WorkerStarted(Err(e))) == (
                s,
                InitView::<E>::Done(Err(e)),
            )
        }),
{
}

/// Where no check is due, the setting-up reads the worker's status file next to the
/// data file. The message in the mailbox is the release in that file, whole, if it
/// is newer than the workflow, and otherwise that there is none; so too where the
/// file holds no release or cannot be read.
pub proof fn mailbox_within_interval_goes_by_the_file<E>(
    s: UpdaterStateView,
    workflow: Workflow,
    folder: Seq<char>,
    file: Seq<char>,
    now: Moment,
    release: UpdateInfoView,
    e: UpdaterError<E>,
)
    requires
        s.last_check is Some,
        !s.due(now),
        data_file::<E>(workflow) is Ok,
        has_parts(data_file::<E>(workflow)->Ok_0, folder, file),
    ensures
        ({
            let none = InitView::<E>::Done(Ok(MailboxView::Filled(None)));
            let (s1, q1) = init_start::<E>(s, workflow, now);
            let (s2, q2) = init_next(s1, q1, EventView::StatusRead(Ok(Some(release))));
            let (s3, q3) = init_next(s1, q1, EventView::StatusRead(Ok(None)));
            let (s4, q4) = init_next(s1, q1, EventView::StatusRead(Err(e)));
            &&& s1 == s
            &&& q1 == (InitView::<E>::ReadStatus {
                file: folder + "last_check_status_async.json"@,
            })
            &&& awaiting_worker(s, s2) && awaiting_worker(s, s3) && awaiting_worker(s, s4)
            &&& precedes(s.current_version, release.avail_version) ==> q2 == InitView::<E>::Done(
                Ok(MailboxView::Filled(Some(release))),
            )
            &&& !precedes(s.current_version, release.avail_version) ==> q2 == none
            &&& q3 == none && q4 == none
        }),
{
    sibling_stays_in_folder(
        data_file::<E>(workflow)->Ok_0,
        folder,
        file,
        "last_check_status_async.json"@,
    );
}

/// The setting-up of a worker for an updater that never checked notes the time, has
/// the updater saved and leaves the message that there is no release, or ends in the
/// error of the saving, and then with no worker.
pub proof fn first_worker_notes_the_time<E>(
    s: UpdaterStateView,
    workflow: Workflow,
    now: Moment,
    e: UpdaterError<E>,
)
    requires
        s.last_check is None,
        data_file::<E>(workflow) is Ok,
    ensures
        ({
            let (s1, q1) = init_start::<E>(s, workflow, now);
            let (s2, q2) = init_next(s1, q1, EventView::Saved(Ok(())));
            &&& s1 == (UpdaterStateView { last_check: Some(now), ..s })
            &&& q1 is Save
            &&& awaiting_worker(s1, s2)
            &&& q2 == InitView::<E>::Done(Ok(MailboxView::Filled(None)))
            &&& init_next(s1, q1, EventView::Saved(Err(e))) == (s1, InitView::<E>::Done(Err(e)))
        }),
{
}

/// A check is due from the first nanosecond after the interval that was set has
/// passed since the last check, and not before; an updater that never checked is
/// always due.
pub proof fn check_is_due_after_the_interval(
    s: UpdaterStateView,
    last: Moment,
    interval: i64,
    now: Moment,
)
    ensures
        ({
            let t = UpdaterStateView { last_check: Some(last), update_interval: interval, ..s };
            let elapsed = (now.secs() - last.secs()) * 1_000_000_000 + (now.nanos()
                - last.nanos());
            &&& now.nanos() < 1_000_000_000 && last.nanos() < 1_000_000_000 ==> (t.due(now)
                <==> elapsed > interval * 1_000_000_000)
            &&& t.due(now) <==> now.nanos_since(last) > interval * 1_000_000_000
        }),
        s.last_check is None ==> s.due(now),
{
}

/// The version, the release and the worker have no part in whether a check is due.
pub proof fn due_goes_by_time_alone(s: UpdaterStateView, t: UpdaterStateView, now: Moment)
    requires
        s.last_check == t.last_check,
        s.update_interval == t.update_interval,
    ensures
        s.due(now) == t.due(now),
{
}

/// The time from one moment to another, leap seconds aside, is the difference of
/// their nanoseconds since 1970; and in either direction it is the same time, with
/// the other sign.
pub proof fn time_runs_both_ways(a: Moment, b: Moment)
    ensures
        a.nanos_since(b) == -b.nanos_since(a),
        a.nanos() < 1_000_000_000 && b.nanos() < 1_000_000_000 ==> a.nanos_since(b) == (a.secs()
            * 1_000_000_000 + a.nanos()) - (b.secs() * 1_000_000_000 + b.nanos()),
{
}

/// A leap second counts: from a moment within it to one in a later second of the same
/// day it is a second more than their whole seconds tell; from one within the same
/// second it is the difference of the nanoseconds.
pub proof fn leap_second_counts(leap: Moment, later: Moment)
    requires
        leap.nanos() >= 1_000_000_000,
        leap.secs() <= later.secs(),
        leap.secs() / 86_400 == later.secs() / 86_400,
    ensures
        leap.secs() < later.secs() ==> later.nanos_since(leap) == (later.secs() - leap.secs() + 1)
            * 1_000_000_000 + (later.nanos() - leap.nanos()),
        leap.secs() == later.secs() ==> later.nanos_since(leap) == later.nanos() - leap.nanos(),
{
}

/// A moment can be any nanosecond of any second on the calendar; a second that ends
/// a minute can be followed by a leap second.
pub proof fn every_nanosecond_is_a_moment(secs: int, nanos: int)
    ensures
        representable(secs, nanos) ==> -8_334_601_228_800 <= secs <= 8_210_266_876_799 && 0
            <= nanos < 2_000_000_000,
        -8_334_601_228_800 <= secs <= 8_210_266_876_799 && 0 <= nanos < 1_000_000_000
            ==> representable(secs, nanos),
        -8_334_601_228_800 <= secs <= 8_210_266_876_799 && 1_000_000_000 <= nanos < 2_000_000_000
            ==> (representable(secs, nanos) <==> (secs + 1) % 60 == 0),
{
}

/// The file for a downloaded release is named by the workflow's whole id, character
/// for character, between a fixed beginning and a fixed end. It takes a cache folder
/// first, and then an id; nothing else of the environment has a part in it.
pub proof fn release_file_holds_the_id<E>(workflow: Workflow)
    ensures
        !workflow.has_cache_dir ==> release_file::<E>(workflow) == Err::<
            Seq<char>,
            UpdaterError<E>,
        >(UpdaterError::MissingCacheDir),
        workflow.has_cache_dir && workflow.uid is None ==> release_file::<E>(workflow) == Err::<
            Seq<char>,
            UpdaterError<E>,
        >(UpdaterError::MissingUid),
        workflow.has_cache_dir && workflow.uid is Some ==> ({
            let uid = workflow.uid->0@;
            &&& release_file::<E>(workflow) is Ok
            &&& ({
                let file = release_file::<E>(workflow)->Ok_0;
                &&& file.len() == 15 + uid.len() + 15
                &&& file.take(15) == "latest_release_"@
                &&& file.subrange(15, (15 + uid.len()) as int) == uid
                &&& file.skip((15 + uid.len()) as int) == ".alfredworkflow"@
            })
        }),
{
    reveal_strlit("latest_release_");
    reveal_strlit(".alfredworkflow");
    if workflow.has_cache_dir && workflow.uid is Some {
        let uid = workflow.uid->0@;
        let file = release_file::<E>(workflow)->Ok_0;
        assert(file.take(15) =~= "latest_release_"@);
        assert(file.subrange(15, (15 + uid.len()) as int) =~= uid);
        assert(file.skip((15 + uid.len()) as int) =~= ".alfredworkflow"@);
    }
}

/// Workflows with different ids download to different files.
pub proof fn release_files_do_not_collide<E>(a: Workflow, b: Workflow)
    requires
        a.has_cache_dir,
        b.has_cache_dir,
        a.uid is Some,
        b.uid is Some,
        release_file::<E>(a) == release_file::<E>(b),
    ensures
        a.uid->0@ == b.uid->0@,
{
    release_file_holds_the_id::<E>(a);
    release_file_holds_the_id::<E>(b);
}

/// What stands in a file name for a character of the workflow's name.
pub open spec fn plain_or_underscore(c: char) -> char {
    if ('a' <= c && c <= 'z') || ('A' <= c && c <= 'Z') || ('0' <= c && c <= '9') {
        c
    } else {
        '_'
    }
}

/// The data file is named by the workflow's whole id, a hyphen, the workflow's name
/// with an underscore for each character that is no ASCII letter or digit, and a
/// fixed end. A workflow without a name has one that stands in for it.
pub proof fn data_file_holds_id_and_name<E>(workflow: Workflow, name: Seq<char>)
    requires
        workflow.has_data_dir,
        workflow.uid is Some,
        workflow.name is Some ==> name == workflow.name->0@,
        workflow.name is None ==> name == "YouForgotTo/フ:NameYourOwnWork}flowッ"@,
    ensures
        data_file::<E>(workflow) is Ok,
        ({
            let uid = workflow.uid->0@;
            let file = data_file::<E>(workflow)->Ok_0;
            let end = uid.len() + 1 + name.len();
            &&& file.len() == end + 13
            &&& file.take(uid.len() as int) == uid
            &&& file[uid.len() as int] == '-'
            &&& forall|i: int|
                0 <= i < name.len() ==> #[trigger] file[uid.len() + 1 + i] == plain_or_underscore(
                    name[i],
                )
            &&& file.skip(end as int) == "-updater.json"@
        }),
{
    reveal_strlit("-");
    reveal_strlit("-updater.json");
    let uid = workflow.uid->0@;
    let file = data_file::<E>(workflow)->Ok_0;
    let end = uid.len() + 1 + name.len();
    assert(file.take(uid.len() as int) =~= uid);
    assert(file.skip(end as int) =~= "-updater.json"@);
    assert forall|i: int| 0 <= i < name.len() implies #[trigger] file[uid.len() + 1 + i]
        == plain_or_underscore(name[i]) by {
        assert(file[uid.len() + 1 + i] == sanitized(name)[i]);
    }
}

/// Workflows with different ids keep their state in different files.
pub proof fn data_files_do_not_collide<E>(a: Workflow, b: Workflow)
    requires
        a.has_data_dir && b.has_data_dir,
        a.uid is Some && b.uid is Some,
        data_file::<E>(a) == data_file::<E>(b),
    ensures
        a.uid->0@ == b.uid->0@,
{
    let m = name_or_fallback(a.name);
    let n = name_or_fallback(b.name);
    data_file_holds_id_and_name::<E>(a, m);
    data_file_holds_id_and_name::<E>(b, n);
    let file = data_file::<E>(a)->Ok_0;
    let (x, y) = (a.uid->0@.len(), b.uid->0@.len());
    if x < y {
        assert(file[x + 1 + (y - x - 1)] == plain_or_underscore(m[y - x - 1]));
    } else if y < x {
        assert(file[y + 1 + (x - y - 1)] == plain_or_underscore(n[x - y - 1]));
    }
}

/// The version that an updater goes on with after a former run is one of two, whole:
/// the environment's where the saved one precedes it, else the saved one. The rest
/// of what was loaded stays as it is, and nothing has to be saved.
pub proof fn loaded_updater_takes_one_of_two_versions<T, E>(
    r: Result<Opened<T>, UpdaterError<E>>,
    releaser: T,
    loaded: UpdaterStateView,
    named: Option<VersionView>,
)
    requires
        opens_as(
            r,
            releaser,
            Ok(loaded),
            match named {
                Some(v) => Some(Ok::<VersionView, Seq<char>>(v)),
                None => None,
            },
        ),
    ensures
        r is Ok,
        r->Ok_0.updater.releaser == releaser,
        !r->Ok_0.must_save,
        named is Some && precedes(loaded.current_version, named->0) ==> r->Ok_0.updater@ == (
        UpdaterStateView { current_version: named->0, ..loaded }),
        !(named is Some && precedes(loaded.current_version, named->0)) ==> r->Ok_0.updater@
            == loaded,
{
}

/// After a former run, a release is newer than the updater's version exactly where
/// it is newer than both the saved version and the environment's. So a check that
/// asks the server answers yes for such a release and for no other.
pub proof fn loaded_updater_reports_what_is_newer_than_both<T, E>(
    r: Result<Opened<T>, UpdaterError<E>>,
    releaser: T,
    loaded: UpdaterStateView,
    named: VersionView,
    version: VersionView,
    file: Seq<char>,
    url: Seq<char>,
    now: Moment,
)
    requires
        opens_as(r, releaser, Ok(loaded), Some(Ok(named))),
    ensures
        ({
            let ready = precedes(loaded.current_version, version) && precedes(named, version);
            let s = r->Ok_0.updater@;
            let p1 = CheckView::<E>::FetchVersion { file };
            let (s2, p2) = check_next(s, p1, EventView::LatestVersion(Ok(version)), now);
            let (s3, p3) = check_next(s2, p2, EventView::DownloadableUrl(Ok(url)), now);
            let (s4, p4) = check_next(s3, p3, EventView::StatusWritten(Ok(())), now);
            let (s5, p5) = check_next(s4, p4, EventView::Saved(Ok(())), now);
            &&& r is Ok
            &&& precedes(s.current_version, version) == ready
            &&& p5 == CheckView::<E>::Done(Ok(ready))
        }),
{
    let saved = loaded.current_version;
    if precedes(saved, named) {
        if precedes(named, version) {
            precedence_is_transitive(saved, named, version);
        }
    } else if precedes(saved, version) {
        precedence_is_total(saved, named);
        if precedes(named, saved) {
            precedence_is_transitive(named, saved, version);
        }
    }
}

/// Where nothing could be loaded since nothing was saved so far, the updater starts
/// from scratch and is to be saved: with the environment's version or 0.0.0, no
/// release, no check made, no worker, and a day between checks.
pub proof fn unsaved_updater_starts_from_scratch<T, E>(
    r: Result<Opened<T>, UpdaterError<E>>,
    releaser: T,
    e: UpdaterError<E>,
    named: Option<VersionView>,
)
    requires
        e is MissingDataFile || e is MissingDataDir || e is MissingUid,
        opens_as(
            r,
            releaser,
            Err(e),
            match named {
                Some(v) => Some(Ok::<VersionView, Seq<char>>(v)),
                None => None,
            },
        ),
    ensures
        r is Ok,
        r->Ok_0.must_save,
        r->Ok_0.updater.releaser == releaser,
        ({
            let s = r->Ok_0.updater@;
            let v = s.current_version;
            &&& named is Some ==> v == named->0
            &&& named is None ==> v.major == 0 && v.minor == 0 && v.patch == 0 && v.pre.len() == 0
                && v.build.len() == 0
            &&& s.avail_version is None
            &&& s.last_check is None
            &&& s.worker_state is None
            &&& s.update_interval == 24 * 60 * 60
        }),
{
}

/// No updater starts over a saved state that could not be read: that error is the
/// outcome, whatever version the environment names. Otherwise a version that cannot
/// be read is the outcome, with the parser's message.
pub proof fn unreadable_state_or_version_is_an_error<T, E>(
    r: Result<Opened<T>, UpdaterError<E>>,
    releaser: T,
    loaded: Result<UpdaterStateView, UpdaterError<E>>,
    named: Option<Result<VersionView, Seq<char>>>,
)
    requires
        opens_as(r, releaser, loaded, named),
    ensures
        ({
            let unreadable = loaded is Err && !(loaded->Err_0 is MissingDataFile
                || loaded->Err_0 is MissingDataDir || loaded->Err_0 is MissingUid);
            let misnamed = named is Some && named->0 is Err;
            &&& unreadable ==> r is Err && r->Err_0 == loaded->Err_0
            &&& !unreadable && misnamed ==> r is Err && r->Err_0 is InvalidVersion
                && r->Err_0->InvalidVersion_0@ == named->0->Err_0
            &&& r is Err <==> unreadable || misnamed
        }),
{
}

/// The environment's version is what its whole text reads as.
pub proof fn named_version_is_the_text(workflow: Workflow)
    ensures
        named_version(workflow) is Some <==> workflow.version is Some,
        workflow.version is Some ==> named_version(workflow)->0 == parsed_version(
            workflow.version->0@,
        ),
{
}

/// A tag without the letter `v` in front is the version's text as it stands, and of
/// several such letters only one is taken off.
pub proof fn tag_loses_one_letter_at_most(tag: Seq<char>)
    ensures
        tag.len() == 0 || tag[0] != 'v' ==> tag_text(tag) == tag,
        tag.len() > 0 && tag[0] == 'v' ==> seq!['v'] + tag_text(tag) == tag,
{
    if tag.len() > 0 && tag[0] == 'v' {
        assert(seq!['v'] + tag_text(tag) =~= tag);
    }
}

/// A version made of three numbers has these numbers and nothing else.
pub proof fn plain_version_is_its_numbers(major: u64, minor: u64, patch: u64)
    ensures
        ({
            let v = plain_version(major, minor, patch);
            v.major == major && v.minor == minor && v.patch == patch && v.pre.len() == 0
                && v.build.len() == 0
        }),
{
}

/// What is saved of an updater is its version, its release and the time of its last
/// check, each as it is; and each is what a later run starts from.
pub proof fn saved_state_is_the_updaters(s: UpdaterStateView, saved: SavedStateView)
    ensures
        s.saved_part().current_version == s.current_version,
        s.saved_part().avail_version == s.avail_version,
        s.saved_part().last_check == s.last_check,
        UpdaterStateView::restored(saved) == (UpdaterStateView {
            current_version: saved.current_version,
            avail_version: saved.avail_version,
            last_check: saved.last_check,
            worker_state: None,
            update_interval: 86_400,
        }),
{
}

/// A download asks for the address that the releaser named, writes what comes to the
/// file that the workflow's id names, and ends with that file.
pub proof fn download_ends_with_the_release_file<E>(workflow: Workflow, url: Seq<char>)
    requires
        workflow.has_cache_dir,
        workflow.uid is Some,
    ensures
        ({
            let file = "latest_release_"@ + workflow.uid->0@ + ".alfredworkflow"@;
            let p1 = download_next(
                DownloadView::<E>::FetchUrl,
                EventView::DownloadableUrl(Ok(url)),
                workflow,
            );
            let p2 = download_next(p1, EventView::Responded(Ok(())), workflow);
            let p3 = download_next(p2, EventView::FileWritten(Ok(())), workflow);
            &&& p1 == (DownloadView::<E>::Request { url })
            &&& p2 == (DownloadView::<E>::WriteFile { file })
            &&& p3 == DownloadView::<E>::Done(Ok(file))
        }),
{
}

/// A download ends in the first error that it meets; a file that failed is removed
/// first, and what comes of that does not matter.
pub proof fn download_ends_in_first_error<E>(
    workflow: Workflow,
    url: Seq<char>,
    file: Seq<char>,
    e: UpdaterError<E>,
    removal: Result<(), UpdaterError<E>>,
)
    ensures
        ({
            let failed = DownloadView::<E>::Done(Err(e));
            let p0 = DownloadView::<E>::FetchUrl;
            let p1 = DownloadView::<E>::Request { url };
            let p2 = DownloadView::<E>::WriteFile { file };
            let p3 = download_next(p2, EventView::FileWritten(Err(e)), workflow);
            let answered = download_next(p1, EventView::Responded(Ok(())), workflow);
            &&& download_next(p0, EventView::DownloadableUrl(Err(e)), workflow) == failed
            &&& download_next(p1, EventView::Responded(Err(e)), workflow) == failed
            &&& p3 == (DownloadView::<E>::RemoveFile { file, failure: e })
            &&& download_next(p3, EventView::FileRemoved(removal), workflow) == failed
            &&& !workflow.has_cache_dir ==> answered == DownloadView::<E>::Done(
                Err(UpdaterError::MissingCacheDir),
            )
            &&& workflow.has_cache_dir && workflow.uid is None ==> answered == DownloadView::<
                E,
            >::Done(Err(UpdaterError::MissingUid))
        }),
{
}

/// Saving makes the folder, writes the data file and is done. A folder that cannot be
/// made is the error; a file that cannot be written is removed, and the error is that
/// of the writing, whatever comes of the removal.
pub proof fn saving_writes_the_data_file<E>(
    workflow: Workflow,
    e: UpdaterError<E>,
    removal: Result<(), UpdaterError<E>>,
)
    requires
        data_file::<E>(workflow) is Ok,
    ensures
        ({
            let file = data_file::<E>(workflow)->Ok_0;
            let failed = StoreView::<E>::Done(Err(e));
            let p1 = save_start::<E>(workflow);
            let p2 = store_next(p1, EventView::FolderMade(Ok(())));
            let p3 = store_next(p2, EventView::FileWritten(Err(e)));
            &&& p1 == (StoreView::<E>::MakeFolder { file })
            &&& p2 == (StoreView::<E>::WriteFile { file })
            &&& store_next(p2, EventView::FileWritten(Ok(()))) == StoreView::<E>::Done(Ok(()))
            &&& store_next(p1, EventView::FolderMade(Err(e))) == failed
            &&& p3 == (StoreView::<E>::RemoveFile { file, failure: e })
            &&& store_next(p3, EventView::FileRemoved(removal)) == failed
        }),
{
}

/// The same of any file, in a folder that is there.
pub proof fn writing_writes_the_file<E>(
    file: Seq<char>,
    e: UpdaterError<E>,
    removal: Result<(), UpdaterError<E>>,
)
    ensures
        ({
            let p1 = StoreView::<E>::WriteFile { file };
            let p2 = store_next(p1, EventView::FileWritten(Err(e)));
            &&& store_next(p1, EventView::FileWritten(Ok(()))) == StoreView::<E>::Done(Ok(()))
            &&& p2 == (StoreView::<E>::RemoveFile { file, failure: e })
            &&& store_next(p2, EventView::FileRemoved(removal)) == StoreView::<E>::Done(Err(e))
        }),
{
}

/// Each error of the library's own has its words; the surrounding program's have
/// none, nor has the report of a worker's error.
pub proof fn errors_have_their_words<E>(message: String, outside: E, sent: UpdaterError<E>)
    ensures
        UpdaterError::<E>::MissingDataDir.words() == Some("missing env variable for data dir"@),
        UpdaterError::<E>::MissingCacheDir.words() == Some("missing env variable for cache dir"@),
        UpdaterError::<E>::MissingUid.words() == Some("missing env variable for uid"@),
        UpdaterError::<E>::MissingDataFile.words() == Some("missing updater data file"@),
        UpdaterError::<E>::InvalidVersion(message).words() == Some(message@),
        UpdaterError::<E>::NotInitialized.words() == Some("you need to use init() metheod first."@),
        UpdaterError::<E>::NoReceiver.words() == Some("you need to use init() correctly!"@),
        UpdaterError::<E>::WorkerFailed(Box::new(sent)).words() is None,
        UpdaterError::<E>::Outside(outside).words() is None,
{
}

/// Loading gives back what a former run saved: the version, the release and the time
/// of the last check, with a day between checks and no worker.
pub proof fn loading_gives_back_what_was_saved<T, E>(
    updater: Updater<T>,
    workflow: Workflow,
    saving: (Store<E>, SavedState),
    loaded: Result<UpdaterState, UpdaterError<E>>,
)
    requires
        workflow.has_data_dir && workflow.uid is Some,
        call_ensures(Updater::<T>::save::<E>, (&updater, &workflow), saving),
        call_ensures(load::<E>, (&workflow, Some(Ok(saving.1))), loaded),
    ensures
        loaded is Ok,
        ({
            let s = updater.state;
            let t = loaded->Ok_0;
            &&& t.current_version@ == s.current_version@
            &&& t.avail_version is Some <==> s.avail_version is Some
            &&& s.avail_version is Some ==> t.avail_version->0@ == s.avail_version->0@
            &&& t.last_check == s.last_check
            &&& t.worker_state is None
            &&& t.update_interval == 24 * 60 * 60
        }),
{
    assert(updater@ == updater.state@);
    let saved = saving.1@;
    assert(loaded->Ok_0@ == UpdaterStateView::restored(saved));
}

/// Where nothing can be loaded, the outcome says why: the data file has no name here,
/// it is not there, or it could not be read.
pub proof fn loading_says_why_not<E>(
    workflow: Workflow,
    on_disk: Option<Result<SavedState, UpdaterError<E>>>,
    loaded: Result<UpdaterState, UpdaterError<E>>,
)
    requires
        call_ensures(load::<E>, (&workflow, on_disk), loaded),
    ensures
        !workflow.has_data_dir ==> loaded is Err && loaded->Err_0 is MissingDataDir,
        workflow.has_data_dir && workflow.uid is None ==> loaded is Err
            && loaded->Err_0 is MissingUid,
        workflow.has_data_dir && workflow.uid is Some && on_disk is None ==> loaded is Err
            && loaded->Err_0 is MissingDataFile,
        workflow.has_data_dir && workflow.uid is Some && on_disk is Some && on_disk->0 is Err
            ==> loaded is Err && loaded->Err_0 == on_disk->0->Err_0,
{
}

/// An updater for a repository on `github.com` asks for that repository, by its whole
/// name.
pub proof fn github_updater_asks_for_its_repository<E>(
    repo_name: String,
    loaded: Result<UpdaterState, UpdaterError<E>>,
    workflow: Workflow,
    r: Result<Opened<GithubReleaser>, UpdaterError<E>>,
)
    requires
        call_ensures(Updater::<GithubReleaser>::gh::<E>, (repo_name, loaded, &workflow), r),
    ensures
        r is Ok ==> r->Ok_0.updater.releaser.repo_name == repo_name
            && r->Ok_0.updater.releaser.latest_url is None,
{
}

} // verus!
