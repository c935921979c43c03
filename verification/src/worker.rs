//! The worker that asks the server while the workflow goes on.
//!
//! [`Updater::init`] sets it up; like a check it goes in steps, each of which
//! ends in something to be done outside.

use vstd::prelude::*;
use crate::error::UpdaterError;
use crate::event::{status_view, Event, EventView};
use crate::moment::Moment;
use crate::names::{
    build_data_fn, data_file, sibling, with_file_name, Workflow, LATEST_UPDATE_INFO_CACHE_FN_ASYNC,
};
use crate::state::{release, MPSCState, MPSCStateView, UpdateInfo, UpdateInfoView, UpdaterStateView};
use crate::updater::Updater;
use crate::version::{Version, VersionView};

verus! {

/// Where the message comes from that the next check will take.
pub enum Mailbox {
    /// It is there: the release to report, if any.
    Filled(Option<UpdateInfo>),
    /// The worker, which was started, will send it.
    FromWorker,
}

/// What the setting-up of a worker waits for.
pub enum Init<E> {
    /// Save the state of an updater that checks for the first time.
    Save,
    /// Start a worker that writes what it finds to `file`.
    StartWorker { file: String },
    /// Read the outcome of the worker's last check from `file`.
    ReadStatus { file: String },
    /// Nothing: the worker is set up, or could not be.
    Done(Result<Mailbox, UpdaterError<E>>),
}

/// What a [`Mailbox`] says.
#[verifier::ext_equal]
pub enum MailboxView {
    Filled(Option<UpdateInfoView>),
    FromWorker,
}

/// What an [`Init`] says.
#[verifier::ext_equal]
pub enum InitView<E> {
    Save,
    StartWorker { file: Seq<char> },
    ReadStatus { file: Seq<char> },
    Done(Result<MailboxView, UpdaterError<E>>),
}

impl View for Mailbox {
    type V = MailboxView;

    open spec fn view(&self) -> MailboxView {
        match *self {
            Mailbox::Filled(info) => MailboxView::Filled(release(info)),
            Mailbox::FromWorker => MailboxView::FromWorker,
        }
    }
}

impl<E> View for Init<E> {
    type V = InitView<E>;

    open spec fn view(&self) -> InitView<E> {
        match *self {
            Init::Save => InitView::Save,
            Init::StartWorker { file } => InitView::StartWorker { file: file@ },
            Init::ReadStatus { file } => InitView::ReadStatus { file: file@ },
            Init::Done(Ok(mailbox)) => InitView::Done(Ok(mailbox@)),
            Init::Done(Err(e)) => InitView::Done(Err(e)),
        }
    }
}

/// The file that holds the outcome of the worker's last check.
pub open spec fn worker_status_file(data_file: Seq<char>) -> Seq<char> {
    sibling(data_file, LATEST_UPDATE_INFO_CACHE_FN_ASYNC@)
}

/// How the setting-up of a worker starts. An updater that never checked only
/// notes the time; where a check is due a worker makes it; else the outcome of
/// the worker's last check will do.
pub open spec fn init_start<E>(s: UpdaterStateView, workflow: Workflow, now: Moment) -> (
    UpdaterStateView,
    InitView<E>,
) {
    match data_file::<E>(workflow) {
        Err(e) => (s, InitView::Done(Err(e))),
        Ok(file) => if s.last_check is None {
            (s.checked_at(now), InitView::Save)
        } else if s.due(now) {
            (s, InitView::StartWorker { file: worker_status_file(file) })
        } else {
            (s, InitView::ReadStatus { file: worker_status_file(file) })
        },
    }
}

/// The state of an updater whose worker was just set up.
pub open spec fn with_worker(s: UpdaterStateView) -> UpdaterStateView {
    UpdaterStateView {
        worker_state: Some(MPSCStateView { recvd_payload: None, has_receiver: true }),
        ..s
    }
}

/// The release to report from the outcome of the worker's last check: the one
/// that was found then, if it is newer than the workflow.
pub open spec fn still_newer<E>(
    s: UpdaterStateView,
    status: Result<Option<UpdateInfoView>, UpdaterError<E>>,
) -> Option<UpdateInfoView> {
    match status {
        Ok(Some(info)) => if s.outdated_by(info) {
            Some(info)
        } else {
            None
        },
        _ => None,
    }
}

/// How the setting-up goes on after the outcome of what it waited for. An outcome
/// of something else changes nothing.
pub open spec fn init_next<E>(s: UpdaterStateView, pending: InitView<E>, event: EventView<E>) -> (
    UpdaterStateView,
    InitView<E>,
) {
    match (pending, event) {
        (InitView::Save, EventView::Saved(r)) => match r {
            Ok(_) => (with_worker(s), InitView::Done(Ok(MailboxView::Filled(None)))),
            Err(e) => (s, InitView::Done(Err(e))),
        },
        (InitView::StartWorker { file }, EventView::WorkerStarted(r)) => match r {
            Ok(_) => (with_worker(s), InitView::Done(Ok(MailboxView::FromWorker))),
            Err(e) => (s, InitView::Done(Err(e))),
        },
        (InitView::ReadStatus { file }, EventView::StatusRead(r)) => (
            with_worker(s),
            InitView::Done(Ok(MailboxView::Filled(still_newer(s, r)))),
        ),
        _ => (s, pending),
    }
}

impl<T> Updater<T> {
    /// Starts to set up the worker.
    pub fn init<E>(&mut self, workflow: &Workflow) -> (r: Init<E>)
        requires
            data_file::<E>(*workflow) is Ok ==> old(self)@.interval_in_range(),
        ensures
            exists|now: Moment|
                {
                    &&& #[trigger] call_ensures(Moment::now, (), now)
                    &&& now.on_clock()
                    &&& (final(self)@, r@) == init_start::<E>(old(self)@, *workflow, now)
                },
            final(self).releaser == old(self).releaser,
    {
        let now = Moment::now();
        self.init_at(workflow, now)
    }

    /// Starts, at `now`, to set up the worker.
    pub fn init_at<E>(&mut self, workflow: &Workflow, now: Moment) -> (r: Init<E>)
        requires
            data_file::<E>(*workflow) is Ok ==> old(self)@.interval_in_range(),
        ensures
            (final(self)@, r@) == init_start::<E>(old(self)@, *workflow, now),
            final(self).releaser == old(self).releaser,
    {
        let file = match build_data_fn::<E>(workflow) {
            Err(e) => {
                return Init::Done(Err(e));
            },
            Ok(data_file) => with_file_name(data_file.as_str(), LATEST_UPDATE_INFO_CACHE_FN_ASYNC),
        };
        if self.last_check().is_none() {
            self.set_last_check(now);
            Init::Save
        } else if self.due_to_check_at(&now) {
            Init::StartWorker { file }
        } else {
            Init::ReadStatus { file }
        }
    }

    /// Notes that the worker was set up.
    fn install_worker(&mut self)
        ensures
            final(self)@ == with_worker(old(self)@),
            final(self).releaser == old(self).releaser,
    {
        self.state.worker_state = Some(MPSCState { recvd_payload: None, has_receiver: true });
    }

    /// The release to report from the outcome of the worker's last check.
    fn report_from<E>(&self, status: Result<Option<UpdateInfo>, UpdaterError<E>>) -> (r: Option<
        UpdateInfo,
    >)
        ensures
            release(r) == still_newer(self@, status_view(status)),
    {
        match status {
            Ok(Some(info)) => if self.state.is_outdated_by(&info) {
                Some(info)
            } else {
                None
            },
            _ => None,
        }
    }

    /// Goes on with the setting-up, after the outcome of what it waited for.
    pub fn init_resume<E>(&mut self, pending: Init<E>, event: Event<E>) -> (r: Init<E>)
        ensures
            (final(self)@, r@) == init_next(old(self)@, pending@, event@),
            final(self).releaser == old(self).releaser,
    {
        match (pending, event) {
            (Init::Save, Event::Saved(r)) => match r {
                Ok(_) => {
                    self.install_worker();
                    Init::Done(Ok(Mailbox::Filled(None)))
                },
                Err(e) => Init::Done(Err(e)),
            },
            (Init::StartWorker { file }, Event::WorkerStarted(r)) => match r {
                Ok(_) => {
                    self.install_worker();
                    Init::Done(Ok(Mailbox::FromWorker))
                },
                Err(e) => Init::Done(Err(e)),
            },
            (Init::ReadStatus { file }, Event::StatusRead(r)) => {
                let info = self.report_from(r);
                self.install_worker();
                Init::Done(Ok(Mailbox::Filled(info)))
            },
            (pending, _) => pending,
        }
    }
}

/// What the worker waits for; `file` is for what it finds.
pub enum Worker<E> {
    /// Ask the releaser for the latest version.
    FetchVersion { file: String },
    /// Ask the releaser for the address of that version.
    FetchUrl { file: String, version: Version },
    /// Write the release to `file`.
    WriteStatus { file: String, info: UpdateInfo },
    /// Send this message and end.
    Send(Result<Option<UpdateInfo>, UpdaterError<E>>),
}

/// What a [`Worker`] says.
#[verifier::ext_equal]
pub enum WorkerView<E> {
    FetchVersion { file: Seq<char> },
    FetchUrl { file: Seq<char>, version: VersionView },
    WriteStatus { file: Seq<char>, info: UpdateInfoView },
    Send(Result<Option<UpdateInfoView>, UpdaterError<E>>),
}

impl<E> View for Worker<E> {
    type V = WorkerView<E>;

    open spec fn view(&self) -> WorkerView<E> {
        match *self {
            Worker::FetchVersion { file } => WorkerView::FetchVersion { file: file@ },
            Worker::FetchUrl { file, version } => WorkerView::FetchUrl {
                file: file@,
                version: version@,
            },
            Worker::WriteStatus { file, info } => WorkerView::WriteStatus {
                file: file@,
                info: info@,
            },
            Worker::Send(message) => WorkerView::Send(status_view(message)),
        }
    }
}

/// How the worker goes on after the outcome of what it waited for. The first
/// error is its message; an outcome of something else changes nothing.
pub open spec fn worker_next<E>(pending: WorkerView<E>, event: EventView<E>) -> WorkerView<E> {
    match (pending, event) {
        (WorkerView::FetchVersion { file }, EventView::LatestVersion(r)) => match r {
            Ok(version) => WorkerView::FetchUrl { file, version },
            Err(e) => WorkerView::Send(Err(e)),
        },
        (WorkerView::FetchUrl { file, version }, EventView::DownloadableUrl(r)) => match r {
            Ok(url) => WorkerView::WriteStatus {
                file,
                info: UpdateInfoView { avail_version: version, downloadable_url: url },
            },
            Err(e) => WorkerView::Send(Err(e)),
        },
        (WorkerView::WriteStatus { file, info }, EventView::StatusWritten(r)) => match r {
            Ok(_) => WorkerView::Send(Ok(Some(info))),
            Err(e) => WorkerView::Send(Err(e)),
        },
        _ => pending,
    }
}

impl<T> Updater<T> {
    /// Starts a worker that writes what it finds to `file`.
    pub fn start_releaser_worker<E>(&self, file: String) -> (r: Worker<E>)
        ensures
            r@ == (WorkerView::<E>::FetchVersion { file: file@ }),
    {
        Worker::FetchVersion { file }
    }
}

impl<E> Worker<E> {
    /// Goes on after the outcome of what the worker waited for.
    pub fn resume(self, event: Event<E>) -> (r: Worker<E>)
        ensures
            r@ == worker_next(self@, event@),
    {
        match (self, event) {
            (Worker::FetchVersion { file }, Event::LatestVersion(r)) => match r {
                Ok(version) => Worker::FetchUrl { file, version },
                Err(e) => Worker::Send(Err(e)),
            },
            (Worker::FetchUrl { file, version }, Event::DownloadableUrl(r)) => match r {
                Ok(url) => {
                    let info = UpdateInfo { avail_version: version, downloadable_url: url };
                    Worker::WriteStatus { file, info }
                },
                Err(e) => Worker::Send(Err(e)),
            },
            (Worker::WriteStatus { file, info }, Event::StatusWritten(r)) => match r {
                Ok(_) => Worker::Send(Ok(Some(info))),
                Err(e) => Worker::Send(Err(e)),
            },
            (pending, _) => pending,
        }
    }
}

} // verus!
