//! The updater: how it starts, what can be set on it, and when a check is due.

use vstd::prelude::*;
use crate::error::UpdaterError;
use crate::moment::Moment;
use crate::names::{build_data_fn, data_file, Workflow};
use crate::releaser::{GithubReleaser, Releaser};
use crate::state::{SavedState, UpdaterState, UpdaterStateView};
use crate::version::{
    parse_view, parsed_version, plain_version, precedes, Version, VersionView,
};

verus! {

/// Checks for the latest release of a workflow.
pub struct Updater<T> {
    pub state: UpdaterState,
    pub releaser: T,
}

impl<T> View for Updater<T> {
    type V = UpdaterStateView;

    open spec fn view(&self) -> UpdaterStateView {
        self.state@
    }
}

/// A variable to be set in the environment.
#[derive(Debug, PartialEq, Eq)]
pub struct EnvVar {
    pub name: String,
    pub value: String,
}

impl View for EnvVar {
    type V = (Seq<char>, Seq<char>);

    open spec fn view(&self) -> (Seq<char>, Seq<char>) {
        (self.name@, self.value@)
    }
}

/// An updater that is ready for use once its state, where that is asked for, has
/// been saved.
pub struct Opened<T> {
    pub updater: Updater<T>,
    pub must_save: bool,
}

/// What the loaded state, or the error in its place, says.
pub open spec fn loaded_view<E>(r: Result<UpdaterState, UpdaterError<E>>) -> Result<
    UpdaterStateView,
    UpdaterError<E>,
> {
    match r {
        Ok(s) => Ok(s@),
        Err(e) => Err(e),
    }
}

/// Reads the state that a former run saved. `on_disk` is what the data file
/// holds, or nothing where there is no such file.
///
/// # Errors
/// That the data file has no name in this environment;
/// [`UpdaterError::MissingDataFile`] where there is no such file; else the error
/// that reading it met.
pub fn load<E>(
    workflow: &Workflow,
    on_disk: Option<Result<SavedState, UpdaterError<E>>>,
) -> (r: Result<UpdaterState, UpdaterError<E>>)
    ensures
        loaded_view(r) == (match data_file::<E>(*workflow) {
            Err(e) => Err::<UpdaterStateView, UpdaterError<E>>(e),
            Ok(_) => match on_disk {
                None => Err(UpdaterError::MissingDataFile),
                Some(Err(e)) => Err(e),
                Some(Ok(saved)) => Ok(UpdaterStateView::restored(saved@)),
            },
        }),
{
    match build_data_fn::<E>(workflow) {
        Err(e) => Err(e),
        Ok(_) => match on_disk {
            None => Err(UpdaterError::MissingDataFile),
            Some(Err(e)) => Err(e),
            Some(Ok(saved)) => Ok(saved.restore()),
        },
    }
}

/// Whether loading failed because there is nothing yet to load.
pub open spec fn nothing_saved<E>(e: UpdaterError<E>) -> bool {
    e is MissingDataFile || e is MissingDataDir || e is MissingUid
}

/// What the environment's version, if it names one, reads as.
pub open spec fn version_view(v: Option<Result<Version, String>>) -> Option<
    Result<VersionView, Seq<char>>,
> {
    match v {
        Some(r) => Some(parse_view(r)),
        None => None,
    }
}

/// What the version that the environment names reads as.
pub open spec fn named_version(workflow: Workflow) -> Option<Result<VersionView, Seq<char>>> {
    match workflow.version {
        Some(text) => Some(parsed_version(text@)),
        None => None,
    }
}

/// The version that a loaded state goes on with: the environment's where that is
/// newer than the saved one.
pub open spec fn newer(saved: VersionView, named: Option<VersionView>) -> VersionView {
    if named is Some && precedes(saved, named->0) {
        named->0
    } else {
        saved
    }
}

/// The version of a workflow that names none.
pub open spec fn version_or_zero(named: Option<VersionView>) -> VersionView {
    match named {
        Some(v) => v,
        None => plain_version(0, 0, 0),
    }
}

/// A version that reads well, if one is named.
pub open spec fn well_named(named: Option<Result<VersionView, Seq<char>>>) -> Option<VersionView> {
    match named {
        Some(Ok(v)) => Some(v),
        _ => None,
    }
}

/// The outcome of starting an updater, given what was loaded and what the
/// environment's version reads as.
pub open spec fn opens_as<T, E>(
    r: Result<Opened<T>, UpdaterError<E>>,
    releaser: T,
    loaded: Result<UpdaterStateView, UpdaterError<E>>,
    named: Option<Result<VersionView, Seq<char>>>,
) -> bool {
    if loaded is Err && !nothing_saved(loaded->Err_0) {
        r == Err::<Opened<T>, UpdaterError<E>>(loaded->Err_0)
    } else if named is Some && named->0 is Err {
        r matches Err(UpdaterError::InvalidVersion(message)) && message@ == named->0->Err_0
    } else {
        &&& r matches Ok(opened)
        &&& opened.updater.releaser == releaser
        &&& opened.must_save == loaded is Err
        &&& opened.updater@ == match loaded {
            Ok(s) => UpdaterStateView {
                current_version: newer(s.current_version, well_named(named)),
                ..s
            },
            Err(_) => UpdaterStateView::fresh(version_or_zero(well_named(named))),
        }
    }
}

impl<T> Updater<T> {
    /// Starts an updater with what was loaded of a former run, or from scratch
    /// where nothing was saved yet; a fresh updater asks to be saved.
    ///
    /// # Errors
    /// - Where the saved state cannot be read, the error that reading it met.
    /// - [`UpdaterError::InvalidVersion`] where the environment's version is not
    ///   a semantic version.
    pub fn load_or_new<E>(
        releaser: T,
        loaded: Result<UpdaterState, UpdaterError<E>>,
        workflow: &Workflow,
    ) -> (r: Result<Opened<T>, UpdaterError<E>>)
        ensures
            opens_as(r, releaser, loaded_view(loaded), named_version(*workflow)),
    {
        let named = match &workflow.version {
            Some(text) => Some(Version::parse(text.as_str())),
            None => None,
        };
        Updater::open(releaser, loaded, named)
    }

    /// Starts an updater for a workflow whose version, if the environment names
    /// one, reads as `named`.
    ///
    /// # Errors
    /// As [`Updater::load_or_new`].
    pub fn open<E>(
        releaser: T,
        loaded: Result<UpdaterState, UpdaterError<E>>,
        named: Option<Result<Version, String>>,
    ) -> (r: Result<Opened<T>, UpdaterError<E>>)
        ensures
            opens_as(r, releaser, loaded_view(loaded), version_view(named)),
    {
        match loaded {
            Ok(mut state) => {
                match named {
                    Some(Err(message)) => {
                        return Err(UpdaterError::InvalidVersion(message));
                    },
                    Some(Ok(v)) => {
                        if state.current_version.is_older_than(&v) {
                            state.current_version = v;
                        }
                    },
                    None => {},
                }
                Ok(Opened { updater: Updater { state, releaser }, must_save: false })
            },
            Err(UpdaterError::MissingDataFile)
            | Err(UpdaterError::MissingDataDir)
            | Err(UpdaterError::MissingUid) => {
                let version = match named {
                    Some(Err(message)) => {
                        return Err(UpdaterError::InvalidVersion(message));
                    },
                    Some(Ok(v)) => v,
                    None => Version::new(0, 0, 0),
                };
                let state = UpdaterState::fresh(version);
                Ok(Opened { updater: Updater { state, releaser }, must_save: true })
            },
            Err(e) => Err(e),
        }
    }
}

impl Updater<GithubReleaser> {
    /// Starts an updater for a workflow that is hosted on `github.com`, in the
    /// repository `repo_name`, given as `user_name/repository_name`. No network
    /// operation is made.
    ///
    /// # Errors
    /// As [`Updater::load_or_new`].
    pub fn gh<E>(
        repo_name: String,
        loaded: Result<UpdaterState, UpdaterError<E>>,
        workflow: &Workflow,
    ) -> (r: Result<Opened<GithubReleaser>, UpdaterError<E>>)
        ensures
            opens_as(
                r,
                GithubReleaser { repo_name, latest_url: None },
                loaded_view(loaded),
                named_version(*workflow),
            ),
    {
        let releaser = <GithubReleaser as Releaser>::new(repo_name);
        Updater::load_or_new(releaser, loaded, workflow)
    }
}

impl<T: Releaser> Updater<T> {
    /// Starts an updater that learns of releases through a releaser for
    /// `repo_name`. No network operation is made.
    ///
    /// # Errors
    /// As [`Updater::load_or_new`].
    pub fn new<E>(
        repo_name: String,
        loaded: Result<UpdaterState, UpdaterError<E>>,
        workflow: &Workflow,
    ) -> (r: Result<Opened<T>, UpdaterError<E>>)
        ensures
            exists|releaser: T|
                {
                    &&& #[trigger] call_ensures(T::new, (repo_name,), releaser)
                    &&& opens_as(r, releaser, loaded_view(loaded), named_version(*workflow))
                },
    {
        let releaser = T::new(repo_name);
        Updater::load_or_new(releaser, loaded, workflow)
    }
}

impl<T> Updater<T> {
    /// Sets the workflow's version.
    pub fn set_current_version(&mut self, version: Version)
        ensures
            final(self)@ == (UpdaterStateView { current_version: version@, ..old(self)@ }),
            final(self).releaser == old(self).releaser,
    {
        self.state.current_version = version;
    }

    /// Sets the workflow's version to one given as text, which has to follow
    /// semantic versioning; see [`Updater::try_set_version`] for text that may
    /// not. Says what to put into the environment, so that updaters that start
    /// later learn of the version.
    pub fn set_version(&mut self, version: &str) -> (r: EnvVar)
        requires
            parsed_version(version@) is Ok,
        ensures
            final(self)@ == (UpdaterStateView {
                current_version: parsed_version(version@)->Ok_0,
                ..old(self)@
            }),
            final(self).releaser == old(self).releaser,
            r@ == ("alfred_workflow_version"@, version@),
    {
        if let Ok(v) = Version::parse(version) {
            self.set_current_version(v);
        }
        EnvVar { name: "alfred_workflow_version".to_owned(), value: version.to_owned() }
    }

    /// Sets the workflow's version to one given as text, as
    /// [`Updater::set_version`] does.
    ///
    /// # Errors
    /// The parser's message, where the text is not a semantic version; the
    /// updater is then left as it was.
    pub fn try_set_version(&mut self, version: &str) -> (r: Result<EnvVar, String>)
        ensures
            match parsed_version(version@) {
                Ok(v) => {
                    &&& r matches Ok(var) && var@ == ("alfred_workflow_version"@, version@)
                    &&& final(self)@ == (UpdaterStateView { current_version: v, ..old(self)@ })
                },
                Err(message) => {
                    &&& r matches Err(m) && m@ == message
                    &&& *final(self) == *old(self)
                },
            },
            final(self).releaser == old(self).releaser,
    {
        match Version::parse(version) {
            Ok(_) => Ok(self.set_version(version)),
            Err(message) => Err(message),
        }
    }

    /// Sets the time between two checks, in seconds.
    pub fn set_interval(&mut self, tick: i64)
        ensures
            final(self)@ == (UpdaterStateView { update_interval: tick, ..old(self)@ }),
            final(self).releaser == old(self).releaser,
    {
        self.set_update_interval(tick);
    }

    /// Sets the time between two checks, in seconds.
    pub fn set_update_interval(&mut self, t: i64)
        ensures
            final(self)@ == (UpdaterStateView { update_interval: t, ..old(self)@ }),
            final(self).releaser == old(self).releaser,
    {
        self.state.update_interval = t;
    }

    /// Notes that a check was made at `t`.
    pub fn set_last_check(&mut self, t: Moment)
        ensures
            final(self)@ == old(self)@.checked_at(t),
            final(self).releaser == old(self).releaser,
    {
        self.state.last_check = Some(t);
    }

    /// The workflow's version.
    pub fn current_version(&self) -> (r: &Version)
        ensures
            r@ == self@.current_version,
    {
        &self.state.current_version
    }

    /// When the last check was made.
    pub fn last_check(&self) -> (r: Option<Moment>)
        ensures
            r == self@.last_check,
    {
        self.state.last_check
    }

    /// The time between two checks, in seconds.
    pub fn update_interval(&self) -> (r: i64)
        ensures
            r == self@.update_interval,
    {
        self.state.update_interval
    }

    /// Whether it is time to ask the server for the latest release: more seconds
    /// than the interval have passed since the last check, or none was made.
    pub fn due_to_check(&self) -> (r: bool)
        requires
            self@.interval_in_range(),
        ensures
            self@.last_check is None ==> r,
            exists|now: Moment|
                {
                    &&& #[trigger] call_ensures(Moment::now, (), now)
                    &&& now.on_clock()
                    &&& r == self@.due(now)
                },
    {
        let now = Moment::now();
        self.due_to_check_at(&now)
    }

    /// Whether it is time, at `now`, to ask the server for the latest release.
    pub fn due_to_check_at(&self, now: &Moment) -> (r: bool)
        requires
            self@.interval_in_range(),
        ensures
            r == self@.due(*now),
    {
        self.state.due_at(now)
    }
}

} // verus!
