//! What holds of the updater as a whole.

use vstd::prelude::*;
use crate::check::{
    async_start, check_next, check_start, status_file, strict_next, with_payload, CheckView,
};
use crate::download::{download_next, DownloadView};
use crate::error::UpdaterError;
use crate::event::EventView;
use crate::moment::Moment;
use crate::names::{
    data_file, data_file_name, folder_len, is_plain, release_file, release_file_name, sanitized,
    Workflow, LATEST_UPDATE_INFO_CACHE_FN, LATEST_UPDATE_INFO_CACHE_FN_ASYNC,
};
use crate::order::{
    precedence_is_asymmetric, precedence_is_irreflexive, precedence_is_total,
    precedence_is_transitive,
};
use crate::state::{UpdateInfoView, UpdaterStateView};
use crate::store::{store_next, StoreView};
use crate::updater::{newer, opens_as, Opened};
use crate::version::{precedes, tag_text, VersionView};
use crate::worker::{
    init_next, init_start, still_newer, with_worker, worker_next, worker_status_file, InitView,
    MailboxView, WorkerView,
};

verus! {

/// Where a check stands after a number of outcomes, each with its time.
pub open spec fn check_run<E>(
    s: UpdaterStateView,
    pending: CheckView<E>,
    steps: Seq<(EventView<E>, Moment)>,
) -> (UpdaterStateView, CheckView<E>)
    decreases steps.len(),
{
    if steps.len() == 0 {
        (s, pending)
    } else {
        let (s1, p1) = check_run(s, pending, steps.drop_last());
        check_next(s1, p1, steps.last().0, steps.last().1)
    }
}

/// Whether a check asks the server.
pub open spec fn asks_server<E>(pending: CheckView<E>) -> bool {
    pending is FetchVersion || pending is FetchUrl
}

/// The very first check never finds an update: it asks no server and only notes
/// the time, whatever the outside answers.
pub proof fn first_check_finds_no_update<E>(
    s: UpdaterStateView,
    workflow: Workflow,
    now: Moment,
    steps: Seq<(EventView<E>, Moment)>,
)
    requires
        s.last_check is None,
        s.worker_state is None,
        data_file::<E>(workflow) is Ok,
    ensures
        ({
            let (s1, p1) = check_start::<E>(s, workflow, now);
            let (s2, p2) = check_run(s1, p1, steps);
            &&& s2 == s.checked_at(now)
            &&& p2 is SaveFirst || p2 is Done
            &&& p2 matches CheckView::Done(Ok(ready)) ==> !ready
        }),
    decreases steps.len(),
{
    if steps.len() > 0 {
        first_check_finds_no_update(s, workflow, now, steps.drop_last());
    }
}

/// While the interval has not passed, no check asks the server, and none changes
/// the updater, whatever the outside answers.
pub proof fn no_server_within_interval<E>(
    s: UpdaterStateView,
    workflow: Workflow,
    now: Moment,
    steps: Seq<(EventView<E>, Moment)>,
)
    requires
        s.worker_state is None,
        !s.due(now),
    ensures
        ({
            let (s1, p1) = check_start::<E>(s, workflow, now);
            let (s2, p2) = check_run(s1, p1, steps);
            &&& s2 == s
            &&& !asks_server(p2)
        }),
{
    let (s1, p1) = check_start::<E>(s, workflow, now);
    lemma_quiet_run(s1, p1, steps);
}

/// A check that reads the last outcome goes on to its end without the server.
proof fn lemma_quiet_run<E>(
    s: UpdaterStateView,
    pending: CheckView<E>,
    steps: Seq<(EventView<E>, Moment)>,
)
    requires
        pending is ReadStatus || pending is Done,
    ensures
        check_run(s, pending, steps).0 == s,
        check_run(s, pending, steps).1 is ReadStatus || check_run(s, pending, steps).1 is Done,
    decreases steps.len(),
{
    if steps.len() > 0 {
        lemma_quiet_run(s, pending, steps.drop_last());
    }
}

/// A check that hears from the worker goes on to its end without the server.
proof fn lemma_worker_check<E>(
    s: UpdaterStateView,
    pending: CheckView<E>,
    steps: Seq<(EventView<E>, Moment)>,
)
    requires
        pending is Receive || pending is SaveReceived || pending is Done,
    ensures
        !asks_server(check_run(s, pending, steps).1),
        ({
            let p2 = check_run(s, pending, steps).1;
            p2 is Receive || p2 is SaveReceived || p2 is Done
        }),
    decreases steps.len(),
{
    if steps.len() > 0 {
        lemma_worker_check(s, pending, steps.drop_last());
    }
}

/// A check asks the server only if it is due, is not the first ever, and there is
/// no worker to do it.
pub proof fn server_is_asked_only_when_due<E>(
    s: UpdaterStateView,
    workflow: Workflow,
    now: Moment,
    steps: Seq<(EventView<E>, Moment)>,
)
    requires
        ({
            let (s1, p1) = check_start::<E>(s, workflow, now);
            asks_server(check_run(s1, p1, steps).1)
        }),
    ensures
        s.due(now),
        s.last_check is Some,
        s.worker_state is None,
{
    let (s1, p1) = check_start::<E>(s, workflow, now);
    if s.worker_state is Some {
        lemma_worker_check(s1, p1, steps);
    } else if p1 is Done || !s.due(now) {
        lemma_quiet_run(s1, p1, steps);
    } else if s.last_check is None {
        first_check_finds_no_update(s, workflow, now, steps);
    }
}

/// How far a check with the server has come, and what it has changed by then.
spec fn server_check<E>(
    s: UpdaterStateView,
    file: Seq<char>,
    s2: UpdaterStateView,
    p2: CheckView<E>,
) -> bool {
    match p2 {
        CheckView::FetchVersion { file: f } => s2 == s && f == file,
        CheckView::FetchUrl { file: f, version, update_avail } => s2 == s && f == file
            && update_avail == precedes(s.current_version, version),
        CheckView::WriteStatus { file: f, info, update_avail } => s2 == s && f == file
            && update_avail == s.outdated_by(info),
        CheckView::SaveRelease { update_avail } => found_release(s, s2) && update_avail
            == s2.update_seen(),
        CheckView::Done(Ok(ready)) => found_release(s, s2) && ready == s2.update_seen(),
        CheckView::Done(Err(_)) => s2 == s || found_release(s, s2),
        _ => false,
    }
}

/// `s2` is `s` but for the latest release that was seen and the time of that.
pub open spec fn found_release(s: UpdaterStateView, s2: UpdaterStateView) -> bool {
    &&& s2.avail_version is Some
    &&& s2.last_check is Some
    &&& s2 == s.having_seen(s2.avail_version).checked_at(s2.last_check->0)
}

proof fn lemma_server_check<E>(
    s: UpdaterStateView,
    file: Seq<char>,
    steps: Seq<(EventView<E>, Moment)>,
)
    ensures
        ({
            let (s2, p2) = check_run(s, CheckView::<E>::FetchVersion { file }, steps);
            server_check(s, file, s2, p2)
        }),
    decreases steps.len(),
{
    if steps.len() > 0 {
        lemma_server_check(s, file, steps.drop_last());
    }
}

/// A check that asks the server answers whether the release that it found, and
/// that the updater then remembers, is newer than the workflow; and it changes
/// nothing else but the time of the last check.
pub proof fn server_check_answers_by_release<E>(
    s: UpdaterStateView,
    workflow: Workflow,
    now: Moment,
    steps: Seq<(EventView<E>, Moment)>,
)
    requires
        s.worker_state is None,
        s.last_check is Some,
        s.due(now),
        data_file::<E>(workflow) is Ok,
    ensures
        ({
            let (s1, p1) = check_start::<E>(s, workflow, now);
            let (s2, p2) = check_run(s1, p1, steps);
            &&& s1 == s
            &&& p1 is FetchVersion
            &&& s2 == s || found_release(s, s2)
            &&& p2 matches CheckView::Done(Ok(ready)) ==> {
                &&& found_release(s, s2)
                &&& ready == s2.update_seen()
            }
        }),
{
    lemma_server_check::<E>(s, status_file(data_file::<E>(workflow)->Ok_0), steps);
}

/// A check whose server, or whose file, fails ends in that error and leaves the
/// updater as it was, so that the next check is due again.
pub proof fn failed_server_check_changes_nothing<E>(
    s: UpdaterStateView,
    pending: CheckView<E>,
    event: EventView<E>,
    now: Moment,
    e: UpdaterError<E>,
)
    requires
        (pending is FetchVersion && event == EventView::<E>::LatestVersion(Err(e))) || (
        pending is FetchUrl && event == EventView::<E>::DownloadableUrl(Err(e))) || (
        pending is WriteStatus && event == EventView::<E>::StatusWritten(Err(e))),
    ensures
        check_next(s, pending, event, now) == (s, CheckView::<E>::Done(Err(e))),
{
}

/// What a check that asked the server wrote, a later check within the interval
/// reads: from the same file, and with the same answer, as long as the workflow's
/// version stays the same.
pub proof fn later_check_agrees<E>(
    s: UpdaterStateView,
    workflow: Workflow,
    steps: Seq<(EventView<E>, Moment)>,
    written: Moment,
    interval: i64,
    now: Moment,
    read: Moment,
)
    requires
        s.worker_state is None,
        data_file::<E>(workflow) is Ok,
        ({
            let file = status_file(data_file::<E>(workflow)->Ok_0);
            check_run(s, CheckView::<E>::FetchVersion { file }, steps).1 is WriteStatus
        }),
        ({
            let t = UpdaterStateView { update_interval: interval, ..s };
            !t.checked_at(written).due(now)
        }),
    ensures
        ({
            let start = status_file(data_file::<E>(workflow)->Ok_0);
            let (s1, p1) = check_run(s, CheckView::<E>::FetchVersion { file: start }, steps);
            let (s2, p2) = check_next(s1, p1, EventView::StatusWritten(Ok(())), written);
            let (s3, p3) = check_next(s2, p2, EventView::Saved(Ok(())), written);
            let t = UpdaterStateView { update_interval: interval, ..s3 };
            let (t1, q1) = check_start::<E>(t, workflow, now);
            let (t2, q2) = check_next(
                t1,
                q1,
                EventView::StatusRead(Ok(Some(p1->WriteStatus_info))),
                read,
            );
            &&& q1 == CheckView::<E>::ReadStatus { file: p1->WriteStatus_file }
            &&& p3 is Done
            &&& p3->Done_0 is Ok
            &&& q2 == p3
        }),
{
    let file = status_file(data_file::<E>(workflow)->Ok_0);
    lemma_server_check::<E>(s, file, steps);
    let (s1, p1) = check_run(s, CheckView::<E>::FetchVersion { file }, steps);
    let (s2, p2) = check_next(s1, p1, EventView::StatusWritten(Ok(())), written);
    let t = UpdaterStateView { update_interval: interval, ..s2 };
    assert(t.last_check == Some(written));
}

/// Where the setting-up of a worker stands after a number of outcomes.
pub open spec fn init_run<E>(
    s: UpdaterStateView,
    pending: InitView<E>,
    events: Seq<EventView<E>>,
) -> (UpdaterStateView, InitView<E>)
    decreases events.len(),
{
    if events.len() == 0 {
        (s, pending)
    } else {
        let (s1, p1) = init_run(s, pending, events.drop_last());
        init_next(s1, p1, events.last())
    }
}

/// While the interval has not passed, no worker is started.
pub proof fn no_worker_within_interval<E>(
    s: UpdaterStateView,
    workflow: Workflow,
    now: Moment,
    events: Seq<EventView<E>>,
)
    requires
        !s.due(now),
    ensures
        ({
            let (s1, p1) = init_start::<E>(s, workflow, now);
            let p2 = init_run(s1, p1, events).1;
            &&& !(p2 is StartWorker)
            &&& p2 != InitView::<E>::Done(Ok(MailboxView::FromWorker))
        }),
{
    let (s1, p1) = init_start::<E>(s, workflow, now);
    if data_file::<E>(workflow) is Ok {
        lemma_init_reads(s1, p1, events);
    } else {
        lemma_init_done(s1, p1, events);
    }
}

proof fn lemma_init_done<E>(s: UpdaterStateView, pending: InitView<E>, events: Seq<EventView<E>>)
    requires
        pending is Done,
    ensures
        init_run(s, pending, events) == (s, pending),
    decreases events.len(),
{
    if events.len() > 0 {
        lemma_init_done(s, pending, events.drop_last());
    }
}

proof fn lemma_init_reads<E>(s: UpdaterStateView, pending: InitView<E>, events: Seq<EventView<E>>)
    requires
        pending is ReadStatus,
    ensures
        ({
            let p2 = init_run(s, pending, events).1;
            p2 is ReadStatus || (p2 matches InitView::Done(Ok(mailbox)) && mailbox is Filled)
        }),
    decreases events.len(),
{
    if events.len() > 0 {
        lemma_init_reads(s, pending, events.drop_last());
    }
}

/// Where a worker with that file stands after a number of outcomes.
pub open spec fn worker_run<E>(file: Seq<char>, events: Seq<EventView<E>>) -> WorkerView<E>
    decreases events.len(),
{
    if events.len() == 0 {
        WorkerView::FetchVersion { file }
    } else {
        worker_next(worker_run(file, events.drop_last()), events.last())
    }
}

/// A worker writes to its own file throughout.
proof fn lemma_worker_file<E>(file: Seq<char>, events: Seq<EventView<E>>)
    ensures
        match worker_run(file, events) {
            WorkerView::FetchVersion { file: f } => f == file,
            WorkerView::FetchUrl { file: f, version } => f == file,
            WorkerView::WriteStatus { file: f, info } => f == file,
            WorkerView::Send(_) => true,
        },
    decreases events.len(),
{
    if events.len() > 0 {
        lemma_worker_file(file, events.drop_last());
    }
}

/// A worker that reports no error reports a release, and has written that release
/// to its file before.
pub proof fn worker_writes_what_it_sends<E>(
    file: Seq<char>,
    events: Seq<EventView<E>>,
    message: Option<UpdateInfoView>,
)
    requires
        worker_run(file, events) == WorkerView::<E>::Send(Ok(message)),
    ensures
        message is Some,
        exists|k: int|
            0 <= k < events.len() && #[trigger] worker_run(file, events.take(k)) == (WorkerView::<
                E,
            >::WriteStatus { file, info: message->0 }),
    decreases events.len(),
{
    let before = events.drop_last();
    assert(before =~= events.take(events.len() - 1));
    lemma_worker_file(file, before);
    if worker_run(file, before) == WorkerView::<E>::Send(Ok(message)) {
        worker_writes_what_it_sends(file, before, message);
        let k = choose|k: int|
            0 <= k < before.len() && #[trigger] worker_run(file, before.take(k)) == (WorkerView::<
                E,
            >::WriteStatus { file, info: message->0 });
        assert(before.take(k) =~= events.take(k));
    }
}

/// Once a worker is set up a check waits for its message, answers by it, and
/// every later check gives that answer again: without the worker, the server or a
/// file, and without any change to the updater.
pub proof fn worker_message_is_kept<E>(
    s: UpdaterStateView,
    message: Option<UpdateInfoView>,
    received: Moment,
    saved: Moment,
    workflow: Workflow,
    now: Moment,
    later: Moment,
)
    ensures
        ({
            let ready = message is Some && s.outdated_by(message->0);
            let (s1, p1) = check_start::<E>(with_worker(s), workflow, now);
            let (s2, p2) = check_next(s1, p1, EventView::Received(Ok(Ok(message))), received);
            let (s3, p3) = check_next(s2, p2, EventView::Saved(Ok(())), saved);
            &&& p1 == CheckView::<E>::Receive { blocking: true }
            &&& p2 is SaveReceived
            &&& p3 == CheckView::<E>::Done(Ok(ready))
            &&& s3 == with_payload(with_worker(s), message).checked_at(received)
            &&& check_start::<E>(s3, workflow, later) == (s3, CheckView::<E>::Done(Ok(ready)))
        }),
{
}

/// An error from the worker is the check's answer; the check counts as made, so
/// that the server is left alone until the interval has passed again.
pub proof fn worker_error_counts_as_check<E>(
    s: UpdaterStateView,
    e: UpdaterError<E>,
    blocking: bool,
    received: Moment,
    saved: Moment,
)
    ensures
        ({
            let pending = CheckView::<E>::Receive { blocking };
            let (s1, p1) = check_next(s, pending, EventView::Received(Ok(Err(e))), received);
            let (s2, p2) = check_next(s1, p1, EventView::Saved(Ok(())), saved);
            &&& s1 == s.checked_at(received)
            &&& p1 is SaveReceived
            &&& s2 == s1
            &&& p2 == CheckView::<E>::Done(Err(e))
        }),
{
}

/// A worker that was not heard from leaves the updater as it was, so that the
/// server is asked again the next time.
pub proof fn silent_worker_changes_nothing<E>(
    s: UpdaterStateView,
    e: UpdaterError<E>,
    blocking: bool,
    now: Moment,
)
    ensures
        check_next(
            s,
            CheckView::<E>::Receive { blocking },
            EventView::Received(Err(e)),
            now,
        ) == (s, CheckView::<E>::Done(Err(e))),
{
}

/// Within the interval the worker's way and the blocking way give the same answer
/// to the same outcome of the last check: what the updater finds in the mailbox
/// is a release only if that is newer than the workflow.
pub proof fn both_ways_agree<E>(
    s: UpdaterStateView,
    file: Seq<char>,
    status: Result<Option<UpdateInfoView>, UpdaterError<E>>,
    workflow: Workflow,
    now: Moment,
    received: Moment,
    saved: Moment,
)
    ensures
        ({
            let blocking = check_next(
                s,
                CheckView::<E>::ReadStatus { file },
                EventView::StatusRead(status),
                now,
            ).1;
            let (s1, q1) = init_next(
                s,
                InitView::<E>::ReadStatus { file },
                EventView::StatusRead(status),
            );
            let message = still_newer(s, status);
            let (s2, p2) = check_start::<E>(s1, workflow, now);
            let (s3, p3) = check_next(s2, p2, EventView::Received(Ok(Ok(message))), received);
            let (s4, p4) = check_next(s3, p3, EventView::Saved(Ok(())), saved);
            &&& q1 == InitView::<E>::Done(Ok(MailboxView::Filled(message)))
            &&& message is Some ==> s.outdated_by(message->0)
            &&& p4 == blocking
        }),
{
    let message = still_newer(s, status);
    worker_message_is_kept::<E>(s, message, received, saved, workflow, now, now);
}

/// What a worker wrote, the setting-up in a later run reads while the interval has
/// not passed: from the same file, and the check that follows gives the answer
/// that the worker's message gave.
pub proof fn later_worker_check_agrees<E>(
    s: UpdaterStateView,
    workflow: Workflow,
    started: Moment,
    info: UpdateInfoView,
    received: Moment,
    interval: i64,
    now: Moment,
    received_again: Moment,
)
    requires
        data_file::<E>(workflow) is Ok,
        s.last_check is Some,
        s.due(started),
        ({
            let t = UpdaterStateView { update_interval: interval, ..s };
            !t.checked_at(received).due(now)
        }),
    ensures
        ({
            let (s1, q1) = init_start::<E>(s, workflow, started);
            let (s2, q2) = init_next(s1, q1, EventView::WorkerStarted(Ok(())));
            let (s3, p3) = check_start::<E>(s2, workflow, received);
            let (s4, p4) = check_next(s3, p3, EventView::Received(Ok(Ok(Some(info)))), received);
            let (s5, p5) = check_next(s4, p4, EventView::Saved(Ok(())), received);
            let t = UpdaterStateView {
                update_interval: interval,
                ..UpdaterStateView::restored(s5.saved_part())
            };
            let status: Result<Option<UpdateInfoView>, UpdaterError<E>> = Ok(Some(info));
            let (t1, r1) = init_start::<E>(t, workflow, now);
            let (t2, r2) = init_next(t1, r1, EventView::StatusRead(status));
            let message = still_newer(t, status);
            let (t3, u3) = check_start::<E>(t2, workflow, now);
            let (t4, u4) = check_next(
                t3,
                u3,
                EventView::Received(Ok(Ok(message))),
                received_again,
            );
            let (t5, u5) = check_next(t4, u4, EventView::Saved(Ok(())), received_again);
            &&& q1 is StartWorker
            &&& q2 == InitView::<E>::Done(Ok(MailboxView::FromWorker))
            &&& r1 == (InitView::<E>::ReadStatus { file: q1->StartWorker_file })
            &&& r2 == InitView::<E>::Done(Ok(MailboxView::Filled(message)))
            &&& p5 == CheckView::<E>::Done(Ok(s.outdated_by(info)))
            &&& u5 == p5
        }),
{
    worker_message_is_kept::<E>(s, Some(info), received, received, workflow, received, received);
    let s5 = with_payload(with_worker(s), Some(info)).checked_at(received);
    let t = UpdaterStateView {
        update_interval: interval,
        ..UpdaterStateView::restored(s5.saved_part())
    };
    assert(!t.due(now));
    let message = still_newer::<E>(t, Ok(Some(info)));
    worker_message_is_kept::<E>(
        t,
        message,
        received_again,
        received_again,
        workflow,
        now,
        received_again,
    );
}

/// Setting up the worker of an updater that never checked asks no server, and the
/// check that follows finds no update.
pub proof fn first_worker_finds_no_update<E>(
    s: UpdaterStateView,
    workflow: Workflow,
    now: Moment,
    received: Moment,
    saved: Moment,
)
    requires
        s.last_check is None,
        data_file::<E>(workflow) is Ok,
    ensures
        ({
            let (s1, q1) = init_start::<E>(s, workflow, now);
            let (s2, q2) = init_next(s1, q1, EventView::Saved(Ok(())));
            let (s3, p3) = check_start::<E>(s2, workflow, now);
            let (s4, p4) = check_next(s3, p3, EventView::Received(Ok(Ok(None))), received);
            let (s5, p5) = check_next(s4, p4, EventView::Saved(Ok(())), saved);
            &&& q1 is Save
            &&& s1 == s.checked_at(now)
            &&& q2 == InitView::<E>::Done(Ok(MailboxView::Filled(None)))
            &&& p5 == CheckView::<E>::Done(Ok(false))
        }),
{
    worker_message_is_kept::<E>(s.checked_at(now), None, received, saved, workflow, now, now);
}

/// Whether an updater with a worker has a way to hear from it.
pub open spec fn hears_worker(s: UpdaterStateView) -> bool {
    s.worker_state is Some ==> s.worker_state->0.has_receiver
}

/// `t` has a way to hear from its worker, and the version and interval of `s`.
pub open spec fn keeps_the_rest(s: UpdaterStateView, t: UpdaterStateView) -> bool {
    &&& hears_worker(t)
    &&& t.current_version == s.current_version
    &&& t.update_interval == s.update_interval
}

/// No step of a check or of a setting-up loses the way to the worker, the
/// workflow's version or the interval; so a check never fails for want of that
/// way.
pub proof fn steps_keep_the_rest<E>(
    s: UpdaterStateView,
    workflow: Workflow,
    pending: CheckView<E>,
    init: InitView<E>,
    event: EventView<E>,
    try_flag: bool,
    now: Moment,
)
    requires
        hears_worker(s),
    ensures
        keeps_the_rest(s, check_start::<E>(s, workflow, now).0),
        keeps_the_rest(s, check_next(s, pending, event, now).0),
        keeps_the_rest(s, strict_next(s, pending, event, now).0),
        keeps_the_rest(s, init_start::<E>(s, workflow, now).0),
        keeps_the_rest(s, init_next(s, init, event).0),
        async_start::<E>(s, try_flag) != CheckView::<E>::Done(Err(UpdaterError::NoReceiver)),
{
}

/// What was saved comes back: an updater that starts from it knows the same
/// version, release and time of the last check; the interval is the default and
/// there is no worker. Saving it again saves the same.
pub proof fn saved_state_comes_back(s: UpdaterStateView)
    ensures
        ({
            let t = UpdaterStateView::restored(s.saved_part());
            &&& t.current_version == s.current_version
            &&& t.avail_version == s.avail_version
            &&& t.last_check == s.last_check
            &&& t.update_interval == 24 * 60 * 60
            &&& t.worker_state is None
            &&& t.saved_part() == s.saved_part()
        }),
{
}

/// The version that a loaded updater goes on with is older neither than the saved
/// one nor than the environment's.
pub proof fn version_never_falls_back(saved: VersionView, named: VersionView)
    ensures
        !precedes(newer(saved, Some(named)), saved),
        !precedes(newer(saved, Some(named)), named),
{
    precedence_is_irreflexive(saved, saved);
    precedence_is_irreflexive(named, named);
    if precedes(saved, named) {
        precedence_is_asymmetric(saved, named);
    }
}

/// After an upgrade the saved outcome of an earlier check reports no update: a
/// release that is not newer than the version the environment names is not newer
/// than the workflow.
pub proof fn upgraded_workflow_is_up_to_date<T, E>(
    r: Result<Opened<T>, UpdaterError<E>>,
    releaser: T,
    loaded: UpdaterStateView,
    named: VersionView,
    info: UpdateInfoView,
    file: Seq<char>,
    now: Moment,
)
    requires
        opens_as(r, releaser, Ok(loaded), Some(Ok(named))),
        !precedes(named, info.avail_version),
    ensures
        r is Ok,
        ({
            let s = r->Ok_0.updater@;
            let status: Result<Option<UpdateInfoView>, UpdaterError<E>> = Ok(Some(info));
            &&& !s.outdated_by(info)
            &&& check_next(
                s,
                CheckView::<E>::ReadStatus { file },
                EventView::StatusRead(status),
                now,
            ).1 == CheckView::<E>::Done(Ok(false))
            &&& still_newer(s, status) is None
        }),
{
    let saved = loaded.current_version;
    if !precedes(saved, named) && precedes(saved, info.avail_version) {
        precedence_is_total(saved, named);
        if precedes(named, saved) {
            precedence_is_transitive(named, saved, info.avail_version);
        }
    }
}

/// Right after a check the next one is not due, unless the interval is negative.
pub proof fn not_due_right_after_check(s: UpdaterStateView, now: Moment)
    ensures
        s.checked_at(now).due(now) <==> s.update_interval < 0,
{
}

/// A check that is due stays due as time goes by, leap seconds aside.
pub proof fn due_check_stays_due(s: UpdaterStateView, now: Moment, later: Moment)
    requires
        s.due(now),
        now.on_calendar(),
        later.on_calendar(),
        now.nanos() < 1_000_000_000,
        later.nanos() < 1_000_000_000,
        s.last_check is Some ==> s.last_check->0.nanos() < 1_000_000_000,
        now.secs() < later.secs() || (now.secs() == later.secs() && now.nanos() <= later.nanos()),
    ensures
        s.due(later),
{
}

/// A longer interval never makes a check due that was not.
pub proof fn longer_interval_is_not_due_sooner(s: UpdaterStateView, now: Moment, longer: i64)
    requires
        s.last_check is Some,
        !s.due(now),
        s.update_interval <= longer,
    ensures
        !(UpdaterStateView { update_interval: longer, ..s }).due(now),
{
}

/// Where the writing of a file stands after a number of outcomes.
pub open spec fn store_run<E>(pending: StoreView<E>, events: Seq<EventView<E>>) -> StoreView<E>
    decreases events.len(),
{
    if events.len() == 0 {
        pending
    } else {
        store_next(store_run(pending, events.drop_last()), events.last())
    }
}

/// A file whose writing ended in an error was to be removed first, and the error
/// is that of the writing.
pub proof fn failed_file_is_removed<E>(
    file: Seq<char>,
    events: Seq<EventView<E>>,
    e: UpdaterError<E>,
)
    requires
        store_run(StoreView::<E>::WriteFile { file }, events) == StoreView::<E>::Done(Err(e)),
    ensures
        exists|k: int|
            0 <= k < events.len() && #[trigger] store_run(
                StoreView::<E>::WriteFile { file },
                events.take(k),
            ) == (StoreView::<E>::RemoveFile { file, failure: e }),
    decreases events.len(),
{
    let start = StoreView::<E>::WriteFile { file };
    let before = events.drop_last();
    assert(before =~= events.take(events.len() - 1));
    lemma_store_names_file(file, before);
    if store_run(start, before) == StoreView::<E>::Done(Err(e)) {
        failed_file_is_removed(file, before, e);
        let k = choose|k: int|
            0 <= k < before.len() && #[trigger] store_run(start, before.take(k)) == (StoreView::<
                E,
            >::RemoveFile { file, failure: e });
        assert(before.take(k) =~= events.take(k));
    }
}

/// The writing of a file speaks of that file throughout.
proof fn lemma_store_names_file<E>(file: Seq<char>, events: Seq<EventView<E>>)
    ensures
        ({
            match store_run(StoreView::<E>::WriteFile { file }, events) {
                StoreView::MakeFolder { file: f } => false,
                StoreView::WriteFile { file: f } => f == file,
                StoreView::RemoveFile { file: f, failure } => f == file,
                StoreView::Done(_) => true,
            }
        }),
    decreases events.len(),
{
    if events.len() > 0 {
        lemma_store_names_file(file, events.drop_last());
    }
}

/// A download whose file failed removes the file before it ends in the error of
/// the writing, whatever comes of the removal.
pub proof fn failed_download_is_removed<E>(
    file: Seq<char>,
    e: UpdaterError<E>,
    removal: Result<(), UpdaterError<E>>,
    workflow: Workflow,
)
    ensures
        ({
            let p1 = download_next(
                DownloadView::<E>::WriteFile { file },
                EventView::FileWritten(Err(e)),
                workflow,
            );
            &&& p1 == (DownloadView::<E>::RemoveFile { file, failure: e })
            &&& download_next(p1, EventView::FileRemoved(removal), workflow)
                == DownloadView::<E>::Done(Err(e))
        }),
{
}

/// Where a download stands after a number of outcomes, in a steady environment.
pub open spec fn download_run<E>(workflow: Workflow, events: Seq<EventView<E>>) -> DownloadView<E>
    decreases events.len(),
{
    if events.len() == 0 {
        DownloadView::FetchUrl
    } else {
        download_next(download_run(workflow, events.drop_last()), events.last(), workflow)
    }
}

/// A release that was downloaded always lies in the file that is named after the
/// workflow's id.
pub proof fn download_is_named_after_workflow<E>(
    workflow: Workflow,
    events: Seq<EventView<E>>,
    file: Seq<char>,
)
    requires
        download_run(workflow, events) == DownloadView::<E>::Done(Ok(file)),
    ensures
        workflow.has_cache_dir,
        workflow.uid is Some,
        file == release_file_name(workflow.uid->0@),
{
    lemma_download_file(workflow, events);
}

proof fn lemma_download_file<E>(workflow: Workflow, events: Seq<EventView<E>>)
    ensures
        match download_run(workflow, events) {
            DownloadView::FetchUrl => true,
            DownloadView::Request { url } => true,
            DownloadView::WriteFile { file } => release_file::<E>(workflow) == Ok::<
                Seq<char>,
                UpdaterError<E>,
            >(file),
            DownloadView::RemoveFile { file, failure } => release_file::<E>(workflow) == Ok::<
                Seq<char>,
                UpdaterError<E>,
            >(file),
            DownloadView::Done(Ok(file)) => release_file::<E>(workflow) == Ok::<
                Seq<char>,
                UpdaterError<E>,
            >(file),
            DownloadView::Done(Err(_)) => true,
        },
    decreases events.len(),
{
    if events.len() > 0 {
        lemma_download_file(workflow, events.drop_last());
    }
}

/// A sanitized name has the length of the name and holds nothing but ASCII
/// letters, digits and underscores; a second pass changes nothing.
pub proof fn sanitized_names_are_plain(name: Seq<char>)
    ensures
        sanitized(name).len() == name.len(),
        forall|i: int|
            0 <= i < name.len() ==> is_plain(#[trigger] sanitized(name)[i]) || sanitized(name)[i]
                == '_',
        sanitized(sanitized(name)) == sanitized(name),
{
    assert(sanitized(sanitized(name)) =~= sanitized(name));
}

/// The two files with the outcomes of checks lie in the folder of the data file,
/// and the three are different.
pub proof fn files_do_not_collide(uid: Seq<char>, name: Seq<char>)
    ensures
        ({
            let data = data_file_name(uid, name);
            let folder = data.take(folder_len(data) as int);
            &&& status_file(data) == folder + LATEST_UPDATE_INFO_CACHE_FN@
            &&& worker_status_file(data) == folder + LATEST_UPDATE_INFO_CACHE_FN_ASYNC@
            &&& status_file(data) != data
            &&& worker_status_file(data) != data
            &&& status_file(data) != worker_status_file(data)
        }),
{
    reveal_strlit("-updater.json");
    reveal_strlit("last_check_status.json");
    reveal_strlit("last_check_status_async.json");
    let data = data_file_name(uid, name);
    assert(data[data.len() - 6] == 'r');
    let a = status_file(data);
    let b = worker_status_file(data);
    assert(a[a.len() - 6] == 's');
    assert(b[b.len() - 6] == 'c');
}

/// A release tag may put the letter `v` before the version.
pub proof fn tag_may_start_with_v(text: Seq<char>)
    ensures
        tag_text(seq!['v'] + text) == text,
        text.len() > 0 && text[0] != 'v' ==> tag_text(text) == text,
{
    assert((seq!['v'] + text).skip(1) =~= text);
}

} // verus!
