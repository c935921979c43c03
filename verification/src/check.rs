//! Whether an update is ready: the blocking check, and the check that hears from
//! a worker.
//!
//! A check goes in steps. Each step ends in something to be done outside, a
//! [`Check`]; its outcome, an [`Event`], is handed to the next step.

use vstd::prelude::*;
use crate::error::UpdaterError;
use crate::event::{Event, EventView};
use crate::moment::Moment;
use crate::names::{
    build_data_fn, data_file, sibling, with_file_name, Workflow, LATEST_UPDATE_INFO_CACHE_FN,
};
use crate::state::{
    clone_release, release, MPSCState, MPSCStateView, UpdateInfo, UpdateInfoView, UpdaterStateView,
};
use crate::updater::Updater;
use crate::version::{precedes, Version, VersionView};

verus! {

/// What a check waits for.
pub enum Check<E> {
    /// Save the state of an updater that checks for the first time.
    SaveFirst,
    /// Ask the releaser for the latest version; `file` is for the outcome.
    FetchVersion { file: String },
    /// Ask the releaser for the address of that version.
    FetchUrl { file: String, version: Version, update_avail: bool },
    /// Write the release to `file`.
    WriteStatus { file: String, info: UpdateInfo, update_avail: bool },
    /// Save the state after the release was written.
    SaveRelease { update_avail: bool },
    /// Read the outcome of the last check from `file`.
    ReadStatus { file: String },
    /// Take the worker's message, and wait for it if `blocking`.
    Receive { blocking: bool },
    /// Save the state after the worker's message, which may have been an error.
    SaveReceived { failure: Option<UpdaterError<E>> },
    /// Nothing: the check is over, and this says whether an update is ready.
    Done(Result<bool, UpdaterError<E>>),
}

/// What a [`Check`] says.
#[verifier::ext_equal]
pub enum CheckView<E> {
    SaveFirst,
    FetchVersion { file: Seq<char> },
    FetchUrl { file: Seq<char>, version: VersionView, update_avail: bool },
    WriteStatus { file: Seq<char>, info: UpdateInfoView, update_avail: bool },
    SaveRelease { update_avail: bool },
    ReadStatus { file: Seq<char> },
    Receive { blocking: bool },
    SaveReceived { failure: Option<UpdaterError<E>> },
    Done(Result<bool, UpdaterError<E>>),
}

impl<E> View for Check<E> {
    type V = CheckView<E>;

    open spec fn view(&self) -> CheckView<E> {
        match *self {
            Check::SaveFirst => CheckView::SaveFirst,
            Check::FetchVersion { file } => CheckView::FetchVersion { file: file@ },
            Check::FetchUrl { file, version, update_avail } => CheckView::FetchUrl {
                file: file@,
                version: version@,
                update_avail,
            },
            Check::WriteStatus { file, info, update_avail } => CheckView::WriteStatus {
                file: file@,
                info: info@,
                update_avail,
            },
            Check::SaveRelease { update_avail } => CheckView::SaveRelease { update_avail },
            Check::ReadStatus { file } => CheckView::ReadStatus { file: file@ },
            Check::Receive { blocking } => CheckView::Receive { blocking },
            Check::SaveReceived { failure } => CheckView::SaveReceived { failure },
            Check::Done(r) => CheckView::Done(r),
        }
    }
}

/// The file that holds the outcome of the last blocking check.
pub open spec fn status_file(data_file: Seq<char>) -> Seq<char> {
    sibling(data_file, LATEST_UPDATE_INFO_CACHE_FN@)
}

/// How a blocking check starts. The first one ever only notes the time; a due one
/// asks the server; any other goes by the outcome of the last one.
pub open spec fn sync_start<E>(s: UpdaterStateView, workflow: Workflow, now: Moment) -> (
    UpdaterStateView,
    CheckView<E>,
) {
    match data_file::<E>(workflow) {
        Err(e) => (s, CheckView::Done(Err(e))),
        Ok(file) => if s.last_check is None {
            (s.checked_at(now), CheckView::SaveFirst)
        } else if s.due(now) {
            (s, CheckView::FetchVersion { file: status_file(file) })
        } else {
            (s, CheckView::ReadStatus { file: status_file(file) })
        },
    }
}

/// How a check that hears from the worker starts: with an answer where the
/// worker's message is known already.
pub open spec fn async_start<E>(s: UpdaterStateView, try_flag: bool) -> CheckView<E> {
    match s.worker_state {
        None => CheckView::Done(Err(UpdaterError::NotInitialized)),
        Some(w) => if w.recvd_payload is Some {
            CheckView::Done(Ok(s.update_seen()))
        } else if !w.has_receiver {
            CheckView::Done(Err(UpdaterError::NoReceiver))
        } else {
            CheckView::Receive { blocking: !try_flag }
        },
    }
}

/// How a check starts: with the worker once there is one, else blocking.
pub open spec fn check_start<E>(s: UpdaterStateView, workflow: Workflow, now: Moment) -> (
    UpdaterStateView,
    CheckView<E>,
) {
    if s.worker_state is None {
        sync_start(s, workflow, now)
    } else {
        (s, async_start(s, false))
    }
}

/// The state after the worker's message `info` came in.
pub open spec fn with_payload(
    s: UpdaterStateView,
    info: Option<UpdateInfoView>,
) -> UpdaterStateView {
    UpdaterStateView {
        avail_version: info,
        worker_state: match s.worker_state {
            Some(w) => Some(MPSCStateView { recvd_payload: Some(info), ..w }),
            None => None,
        },
        ..s
    }
}

/// How a check goes on at `now` after the outcome of what it waited for. An
/// outcome of something else changes nothing.
pub open spec fn check_next<E>(
    s: UpdaterStateView,
    pending: CheckView<E>,
    event: EventView<E>,
    now: Moment,
) -> (UpdaterStateView, CheckView<E>) {
    match (pending, event) {
        (CheckView::SaveFirst, EventView::Saved(r)) => match r {
            Ok(_) => (s, CheckView::Done(Ok(false))),
            Err(e) => (s, CheckView::Done(Err(e))),
        },
        (CheckView::FetchVersion { file }, EventView::LatestVersion(r)) => match r {
            Ok(version) => (
                s,
                CheckView::FetchUrl {
                    file,
                    version,
                    update_avail: precedes(s.current_version, version),
                },
            ),
            Err(e) => (s, CheckView::Done(Err(e))),
        },
        (
            CheckView::FetchUrl { file, version, update_avail },
            EventView::DownloadableUrl(r),
        ) => match r {
            Ok(url) => (
                s,
                CheckView::WriteStatus {
                    file,
                    info: UpdateInfoView { avail_version: version, downloadable_url: url },
                    update_avail,
                },
            ),
            Err(e) => (s, CheckView::Done(Err(e))),
        },
        (
            CheckView::WriteStatus { file, info, update_avail },
            EventView::StatusWritten(r),
        ) => match r {
            Ok(_) => (
                s.having_seen(Some(info)).checked_at(now),
                CheckView::SaveRelease { update_avail },
            ),
            Err(e) => (s, CheckView::Done(Err(e))),
        },
        (CheckView::SaveRelease { update_avail }, EventView::Saved(r)) => match r {
            Ok(_) => (s, CheckView::Done(Ok(update_avail))),
            Err(e) => (s, CheckView::Done(Err(e))),
        },
        (CheckView::ReadStatus { file }, EventView::StatusRead(r)) => (
            s,
            CheckView::Done(Ok(r is Ok && r->Ok_0 is Some && s.outdated_by(r->Ok_0->0))),
        ),
        (CheckView::Receive { blocking }, EventView::Received(r)) => match r {
            Ok(Ok(info)) => (
                with_payload(s, info).checked_at(now),
                CheckView::SaveReceived { failure: None },
            ),
            Ok(Err(e)) => (s.checked_at(now), CheckView::SaveReceived { failure: Some(e) }),
            Err(e) => (s, CheckView::Done(Err(e))),
        },
        (CheckView::SaveReceived { failure }, EventView::Saved(r)) => match (r, failure) {
            (Err(e), _) => (s, CheckView::Done(Err(e))),
            (Ok(_), Some(e)) => (s, CheckView::Done(Err(e))),
            (Ok(_), None) => (s, CheckView::Done(Ok(s.update_seen()))),
        },
        _ => (s, pending),
    }
}

/// As [`check_next`], but the worker's error ends the check at once, with a report
/// of that error: no time is noted and nothing is saved.
pub open spec fn strict_next<E>(
    s: UpdaterStateView,
    pending: CheckView<E>,
    event: EventView<E>,
    now: Moment,
) -> (UpdaterStateView, CheckView<E>) {
    match (pending, event) {
        (CheckView::Receive { blocking }, EventView::Received(Ok(Err(e)))) => (
            s,
            CheckView::Done(Err(UpdaterError::WorkerFailed(Box::new(e)))),
        ),
        _ => check_next(s, pending, event, now),
    }
}

impl<T> Updater<T> {
    /// Starts a blocking check at `now`.
    pub fn update_ready_sync<E>(&mut self, workflow: &Workflow, now: Moment) -> (r: Check<E>)
        requires
            data_file::<E>(*workflow) is Ok ==> old(self)@.interval_in_range(),
        ensures
            (final(self)@, r@) == sync_start::<E>(old(self)@, *workflow, now),
            final(self).releaser == old(self).releaser,
    {
        let file = match build_data_fn::<E>(workflow) {
            Err(e) => {
                return Check::Done(Err(e));
            },
            Ok(data_file) => with_file_name(data_file.as_str(), LATEST_UPDATE_INFO_CACHE_FN),
        };
        if self.last_check().is_none() {
            self.set_last_check(now);
            Check::SaveFirst
        } else if self.due_to_check_at(&now) {
            Check::FetchVersion { file }
        } else {
            Check::ReadStatus { file }
        }
    }

    /// Starts a check that hears from the worker; with `try_flag` it does not
    /// wait for the worker.
    pub fn update_ready_async_<E>(&self, try_flag: bool) -> (r: Check<E>)
        ensures
            r@ == async_start::<E>(self@, try_flag),
    {
        match &self.state.worker_state {
            None => Check::Done(Err(UpdaterError::NotInitialized)),
            Some(worker) => if worker.recvd_payload.is_some() {
                Check::Done(Ok(self.state.has_seen_update()))
            } else if !worker.has_receiver {
                Check::Done(Err(UpdaterError::NoReceiver))
            } else {
                Check::Receive { blocking: !try_flag }
            },
        }
    }

    /// Starts a check at `now`, with the worker once [`Updater::init`] has set one
    /// up, else blocking.
    pub fn update_ready_at<E>(&mut self, workflow: &Workflow, now: Moment) -> (r: Check<E>)
        requires
            old(self)@.worker_state is None && data_file::<E>(*workflow) is Ok ==> old(
                self,
            )@.interval_in_range(),
        ensures
            (final(self)@, r@) == check_start::<E>(old(self)@, *workflow, now),
            final(self).releaser == old(self).releaser,
    {
        if self.state.worker_state.is_none() {
            self.update_ready_sync(workflow, now)
        } else {
            self.update_ready_async_(false)
        }
    }
}

impl<T> Updater<T> {
    /// Starts a check, with the worker once [`Updater::init`] has set one up, else
    /// blocking.
    pub fn update_ready<E>(&mut self, workflow: &Workflow) -> (r: Check<E>)
        requires
            old(self)@.worker_state is None && data_file::<E>(*workflow) is Ok ==> old(
                self,
            )@.interval_in_range(),
        ensures
            exists|now: Moment|
                {
                    &&& #[trigger] call_ensures(Moment::now, (), now)
                    &&& now.on_clock()
                    &&& (final(self)@, r@) == check_start::<E>(old(self)@, *workflow, now)
                },
            final(self).releaser == old(self).releaser,
    {
        let now = Moment::now();
        self.update_ready_at(workflow, now)
    }

    /// Takes in the worker's message `info`.
    fn take_payload(&mut self, info: Option<UpdateInfo>)
        ensures
            final(self)@ == with_payload(old(self)@, release(info)),
            final(self).releaser == old(self).releaser,
    {
        self.state.avail_version = clone_release(&info);
        if let Some(worker) = self.state.worker_state.take() {
            self.state.worker_state = Some(
                MPSCState { recvd_payload: Some(info), has_receiver: worker.has_receiver },
            );
        }
    }

    /// Goes on at `now` with a check, after the outcome of what it waited for.
    pub fn resume_at<E>(&mut self, pending: Check<E>, event: Event<E>, now: Moment) -> (r: Check<E>)
        ensures
            (final(self)@, r@) == check_next(old(self)@, pending@, event@, now),
            final(self).releaser == old(self).releaser,
    {
        match (pending, event) {
            (Check::SaveFirst, Event::Saved(r)) => match r {
                Ok(_) => Check::Done(Ok(false)),
                Err(e) => Check::Done(Err(e)),
            },
            (Check::FetchVersion { file }, Event::LatestVersion(r)) => match r {
                Ok(version) => {
                    let update_avail = self.current_version().is_older_than(&version);
                    Check::FetchUrl { file, version, update_avail }
                },
                Err(e) => Check::Done(Err(e)),
            },
            (
                Check::FetchUrl { file, version, update_avail },
                Event::DownloadableUrl(r),
            ) => match r {
                Ok(url) => {
                    let info = UpdateInfo { avail_version: version, downloadable_url: url };
                    Check::WriteStatus { file, info, update_avail }
                },
                Err(e) => Check::Done(Err(e)),
            },
            (
                Check::WriteStatus { file, info, update_avail },
                Event::StatusWritten(r),
            ) => match r {
                Ok(_) => {
                    self.state.avail_version = Some(info);
                    self.set_last_check(now);
                    Check::SaveRelease { update_avail }
                },
                Err(e) => Check::Done(Err(e)),
            },
            (Check::SaveRelease { update_avail }, Event::Saved(r)) => match r {
                Ok(_) => Check::Done(Ok(update_avail)),
                Err(e) => Check::Done(Err(e)),
            },
            (Check::ReadStatus { file }, Event::StatusRead(r)) => match r {
                Ok(Some(info)) => Check::Done(Ok(self.state.is_outdated_by(&info))),
                Ok(None) => Check::Done(Ok(false)),
                Err(_) => Check::Done(Ok(false)),
            },
            (Check::Receive { blocking }, Event::Received(r)) => match r {
                Ok(Ok(info)) => {
                    self.take_payload(info);
                    self.set_last_check(now);
                    Check::SaveReceived { failure: None }
                },
                Ok(Err(e)) => {
                    self.set_last_check(now);
                    Check::SaveReceived { failure: Some(e) }
                },
                Err(e) => Check::Done(Err(e)),
            },
            (Check::SaveReceived { failure }, Event::Saved(r)) => match (r, failure) {
                (Err(e), _) => Check::Done(Err(e)),
                (Ok(_), Some(e)) => Check::Done(Err(e)),
                (Ok(_), None) => Check::Done(Ok(self.state.has_seen_update())),
            },
            (pending, _) => pending,
        }
    }

    /// Goes on with a check, after the outcome of what it waited for.
    pub fn resume<E>(&mut self, pending: Check<E>, event: Event<E>) -> (r: Check<E>)
        ensures
            exists|now: Moment|
                {
                    &&& #[trigger] call_ensures(Moment::now, (), now)
                    &&& now.on_clock()
                    &&& (final(self)@, r@) == check_next(old(self)@, pending@, event@, now)
                },
            final(self).releaser == old(self).releaser,
    {
        let now = Moment::now();
        self.resume_at(pending, event, now)
    }

    /// Starts a check that waits for the worker and, at an error from it, ends in a
    /// report of that error without noting the time. The worker has to be set up.
    pub fn update_ready_async__<E>(&self) -> (r: Check<E>)
        requires
            self@.worker_state is Some,
            self@.worker_state->0.recvd_payload is None ==> self@.worker_state->0.has_receiver,
        ensures
            r@ == async_start::<E>(self@, false),
            !(r@ matches CheckView::Done(Err(_))),
    {
        self.update_ready_async_(false)
    }

    /// Goes on at `now` with a check that [`Updater::update_ready_async__`]
    /// started.
    pub fn resume_strict_at<E>(&mut self, pending: Check<E>, event: Event<E>, now: Moment) -> (r:
        Check<E>)
        ensures
            (final(self)@, r@) == strict_next(old(self)@, pending@, event@, now),
            final(self).releaser == old(self).releaser,
    {
        match (pending, event) {
            (Check::Receive { blocking }, Event::Received(Ok(Err(e)))) => Check::Done(
                Err(UpdaterError::WorkerFailed(Box::new(e))),
            ),
            (pending, event) => self.resume_at(pending, event, now),
        }
    }
}

} // verus!
