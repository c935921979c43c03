//! What an updater remembers, and what of it outlives a run.

use vstd::prelude::*;
use crate::moment::{Moment, LONGEST_INTERVAL};
use crate::version::{precedes, Version, VersionView};

verus! {

/// The time between two checks unless the workflow sets another: a day, in
/// seconds.
pub const UPDATE_INTERVAL: i64 = 86_400;

/// The time between two checks of a freshly made updater, in seconds.
pub fn default_interval() -> (r: i64)
    ensures
        r == 24 * 60 * 60,
{
    UPDATE_INTERVAL
}

/// A release that the server offers.
#[derive(Debug, PartialEq, Eq)]
pub struct UpdateInfo {
    pub avail_version: Version,
    pub downloadable_url: String,
}

/// What the updater has from its worker.
#[derive(Debug, PartialEq, Eq)]
pub struct MPSCState {
    /// The worker's answer, once it came: the release that it found, if any.
    pub recvd_payload: Option<Option<UpdateInfo>>,
    /// Whether there is a way to hear from the worker.
    pub has_receiver: bool,
}

/// What an updater remembers.
#[derive(Debug, PartialEq, Eq)]
pub struct UpdaterState {
    /// The workflow's own version.
    pub current_version: Version,
    /// The latest release that was seen.
    pub avail_version: Option<UpdateInfo>,
    /// When the last check was made.
    pub last_check: Option<Moment>,
    /// The worker, once it was set up.
    pub worker_state: Option<MPSCState>,
    /// The seconds that pass between two checks.
    pub update_interval: i64,
}

/// What of an updater's memory outlives a run of the workflow.
#[derive(Debug, PartialEq, Eq)]
pub struct SavedState {
    pub current_version: Version,
    pub avail_version: Option<UpdateInfo>,
    pub last_check: Option<Moment>,
}

/// What an [`UpdateInfo`] says.
#[verifier::ext_equal]
pub struct UpdateInfoView {
    pub avail_version: VersionView,
    pub downloadable_url: Seq<char>,
}

/// What an [`MPSCState`] says.
#[verifier::ext_equal]
pub struct MPSCStateView {
    pub recvd_payload: Option<Option<UpdateInfoView>>,
    pub has_receiver: bool,
}

/// What an [`UpdaterState`] says.
#[verifier::ext_equal]
pub struct UpdaterStateView {
    pub current_version: VersionView,
    pub avail_version: Option<UpdateInfoView>,
    pub last_check: Option<Moment>,
    pub worker_state: Option<MPSCStateView>,
    pub update_interval: i64,
}

/// What a [`SavedState`] says.
#[verifier::ext_equal]
pub struct SavedStateView {
    pub current_version: VersionView,
    pub avail_version: Option<UpdateInfoView>,
    pub last_check: Option<Moment>,
}

impl View for UpdateInfo {
    type V = UpdateInfoView;

    open spec fn view(&self) -> UpdateInfoView {
        UpdateInfoView {
            avail_version: self.avail_version@,
            downloadable_url: self.downloadable_url@,
        }
    }
}

/// What a release, if any, says.
pub open spec fn release(info: Option<UpdateInfo>) -> Option<UpdateInfoView> {
    match info {
        Some(i) => Some(i@),
        None => None,
    }
}

impl View for MPSCState {
    type V = MPSCStateView;

    open spec fn view(&self) -> MPSCStateView {
        MPSCStateView {
            recvd_payload: match self.recvd_payload {
                Some(p) => Some(release(p)),
                None => None,
            },
            has_receiver: self.has_receiver,
        }
    }
}

impl View for UpdaterState {
    type V = UpdaterStateView;

    open spec fn view(&self) -> UpdaterStateView {
        UpdaterStateView {
            current_version: self.current_version@,
            avail_version: release(self.avail_version),
            last_check: self.last_check,
            worker_state: match self.worker_state {
                Some(w) => Some(w@),
                None => None,
            },
            update_interval: self.update_interval,
        }
    }
}

impl View for SavedState {
    type V = SavedStateView;

    open spec fn view(&self) -> SavedStateView {
        SavedStateView {
            current_version: self.current_version@,
            avail_version: release(self.avail_version),
            last_check: self.last_check,
        }
    }
}

impl Clone for UpdateInfo {
    fn clone(&self) -> (r: Self)
        ensures
            r@ == self@,
    {
        UpdateInfo {
            avail_version: self.avail_version.clone(),
            downloadable_url: self.downloadable_url.clone(),
        }
    }
}

/// Copies a release, if any.
pub fn clone_release(info: &Option<UpdateInfo>) -> (r: Option<UpdateInfo>)
    ensures
        release(r) == release(*info),
{
    match info {
        Some(i) => Some(i.clone()),
        None => None,
    }
}

impl UpdaterStateView {
    /// What of this state outlives the run.
    pub open spec fn saved_part(self) -> SavedStateView {
        SavedStateView {
            current_version: self.current_version,
            avail_version: self.avail_version,
            last_check: self.last_check,
        }
    }

    /// The state of an updater that starts from what a former run saved: the
    /// interval is the default again, and there is no worker.
    pub open spec fn restored(saved: SavedStateView) -> UpdaterStateView {
        UpdaterStateView {
            current_version: saved.current_version,
            avail_version: saved.avail_version,
            last_check: saved.last_check,
            worker_state: None,
            update_interval: UPDATE_INTERVAL,
        }
    }

    /// The state of an updater that never ran before.
    pub open spec fn fresh(version: VersionView) -> UpdaterStateView {
        UpdaterStateView::restored(
            SavedStateView { current_version: version, avail_version: None, last_check: None },
        )
    }

    /// Whether the interval is one that a duration holds, where it matters.
    pub open spec fn interval_in_range(self) -> bool {
        self.last_check is Some ==> -LONGEST_INTERVAL <= self.update_interval <= LONGEST_INTERVAL
    }

    /// Whether it is time to ask the server: no check was ever made, or the last
    /// one lies back by more than the interval.
    pub open spec fn due(self, now: Moment) -> bool {
        match self.last_check {
            None => true,
            Some(t) => now.nanos_since(t) > self.update_interval * 1_000_000_000,
        }
    }

    /// Whether a release is newer than the workflow.
    pub open spec fn outdated_by(self, info: UpdateInfoView) -> bool {
        precedes(self.current_version, info.avail_version)
    }

    /// Whether the latest release that was seen is newer than the workflow.
    pub open spec fn update_seen(self) -> bool {
        self.avail_version is Some && self.outdated_by(self.avail_version->0)
    }

    /// The state with another time of the last check.
    pub open spec fn checked_at(self, now: Moment) -> UpdaterStateView {
        UpdaterStateView { last_check: Some(now), ..self }
    }

    /// The state with another latest release.
    pub open spec fn having_seen(self, info: Option<UpdateInfoView>) -> UpdaterStateView {
        UpdaterStateView { avail_version: info, ..self }
    }
}

impl SavedState {
    /// Turns what a former run saved into the state to start from.
    pub fn restore(self) -> (r: UpdaterState)
        ensures
            r@ == UpdaterStateView::restored(self@),
    {
        UpdaterState {
            current_version: self.current_version,
            avail_version: self.avail_version,
            last_check: self.last_check,
            worker_state: None,
            update_interval: default_interval(),
        }
    }
}

impl UpdaterState {
    /// The state of an updater that never ran before, for a workflow of the
    /// given version.
    pub fn fresh(version: Version) -> (r: UpdaterState)
        ensures
            r@ == UpdaterStateView::fresh(version@),
    {
        UpdaterState {
            current_version: version,
            avail_version: None,
            last_check: None,
            worker_state: None,
            update_interval: default_interval(),
        }
    }

    /// What of this state is to be saved.
    pub fn to_saved(&self) -> (r: SavedState)
        ensures
            r@ == self@.saved_part(),
    {
        SavedState {
            current_version: self.current_version.clone(),
            avail_version: clone_release(&self.avail_version),
            last_check: self.last_check,
        }
    }

    /// Whether the given release is newer than the workflow.
    pub fn is_outdated_by(&self, info: &UpdateInfo) -> (r: bool)
        ensures
            r == self@.outdated_by(info@),
    {
        self.current_version.is_older_than(&info.avail_version)
    }

    /// Whether the latest release that was seen is newer than the workflow.
    pub fn has_seen_update(&self) -> (r: bool)
        ensures
            r == self@.update_seen(),
    {
        match &self.avail_version {
            Some(info) => self.is_outdated_by(info),
            None => false,
        }
    }

    /// Whether it is time, at `now`, to ask the server.
    pub fn due_at(&self, now: &Moment) -> (r: bool)
        requires
            self@.interval_in_range(),
        ensures
            r == self@.due(*now),
    {
        match &self.last_check {
            None => true,
            Some(t) => now.is_later_by_more_than(self.update_interval, t),
        }
    }
}

} // verus!
