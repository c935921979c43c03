//! Whole runs of a workflow, in a world that is held in memory.

use alfred_updater::check::Check;
use alfred_updater::download::Download;
use alfred_updater::error::UpdaterError;
use alfred_updater::event::Event;
use alfred_updater::moment::Moment;
use alfred_updater::names::{build_data_fn, Workflow};
use alfred_updater::releaser::GithubReleaser;
use alfred_updater::state::{SavedState, UpdateInfo};
use alfred_updater::store::Store;
use alfred_updater::updater::{load, Updater};
use alfred_updater::version::Version;
use alfred_updater::worker::{Init, Mailbox, Worker};

const VERSION_TEST: &str = "0.10.5";
const VERSION_TEST_NEW: &str = "0.11.1";
const REPO_NAME: &str = "spamwax/alfred-pinboard-rs";
const RELEASE_URL: &str = "https://github.com/spamwax/alfred-pinboard-rs/releases/latest.alfredworkflow";

type Failure = UpdaterError<String>;

enum Channel {
    Closed,
    Message(Option<UpdateInfo>),
    FromWorker(String),
}

struct World {
    workflow: Workflow,
    data: Option<SavedState>,
    files: Vec<(String, Option<UpdateInfo>)>,
    server_status: u16,
    server_calls: u32,
    channel: Channel,
    downloaded: Option<String>,
}

fn copy(saved: &SavedState) -> SavedState {
    SavedState {
        current_version: saved.current_version.clone(),
        avail_version: saved.avail_version.clone(),
        last_check: saved.last_check,
    }
}

fn text(v: &Version) -> String {
    assert!(v.pre.is_empty() && v.build.is_empty());
    format!("{}.{}.{}", v.major, v.minor, v.patch)
}

/// Lets the clock move on.
fn tick() {
    let before = Moment::now();
    while Moment::now() == before {}
}

impl World {
    fn new(server_status: u16) -> World {
        World {
            workflow: Workflow {
                name: Some("YouForgotTo/フ:Name好YouráOwnسWork}flowッ".to_string()),
                uid: Some("workflow.B0AC54EC-601C".to_string()),
                version: Some(VERSION_TEST.to_string()),
                has_data_dir: true,
                has_cache_dir: true,
            },
            data: None,
            files: vec![],
            server_status,
            server_calls: 0,
            channel: Channel::Closed,
            downloaded: None,
        }
    }

    fn status(&self) -> Result<(), Failure> {
        match self.server_status {
            200 => Ok(()),
            400 => Err(UpdaterError::Outside("ClientError(BadRequest)".to_string())),
            _ => Err(UpdaterError::Outside("ServerError(ServiceUnavailable)".to_string())),
        }
    }

    fn latest_version(&mut self) -> Result<Version, Failure> {
        self.server_calls += 1;
        self.status()?;
        Ok(Version::parse_tag("v0.11.1").unwrap())
    }

    fn downloadable_url(&mut self) -> Result<String, Failure> {
        self.status()?;
        Ok(RELEASE_URL.to_string())
    }

    fn write_status(&mut self, file: &str, info: &UpdateInfo) -> Result<(), Failure> {
        let mut store = Store::<String>::write_last_check_status(file.to_string());
        loop {
            let event = match &store {
                Store::WriteFile { file } => {
                    self.files.retain(|f| &f.0 != file);
                    self.files.push((file.clone(), Some(info.clone())));
                    Event::FileWritten(Ok(()))
                }
                Store::Done(_) => break,
                _ => panic!("no folder to make, nothing to remove"),
            };
            store = store.resume(event);
        }
        match store {
            Store::Done(r) => r,
            _ => unreachable!(),
        }
    }

    fn read_status(&self, file: &str) -> Result<Option<UpdateInfo>, Failure> {
        match self.files.iter().find(|f| f.0 == file) {
            Some(f) => Ok(f.1.clone()),
            None => Err(UpdaterError::Outside("no such file".to_string())),
        }
    }

    fn save(&mut self, updater: &Updater<GithubReleaser>) -> Result<(), Failure> {
        let (mut store, content) = updater.save::<String>(&self.workflow);
        let mut made_folder = false;
        loop {
            let event = match &store {
                Store::MakeFolder { .. } => {
                    made_folder = true;
                    Event::FolderMade(Ok(()))
                }
                Store::WriteFile { file } => {
                    assert!(made_folder);
                    assert_eq!(build_data_fn::<String>(&self.workflow).as_ref(), Ok(file));
                    self.data = Some(copy(&content));
                    Event::FileWritten(Ok(()))
                }
                Store::Done(_) => break,
                Store::RemoveFile { .. } => panic!("nothing failed"),
            };
            store = store.resume(event);
        }
        match store {
            Store::Done(r) => r,
            _ => unreachable!(),
        }
    }

    fn gh(&mut self) -> Result<Updater<GithubReleaser>, Failure> {
        let on_disk = self.data.as_ref().map(|d| Ok(copy(d)));
        let loaded = load::<String>(&self.workflow, on_disk);
        let opened = Updater::gh(REPO_NAME.to_string(), loaded, &self.workflow)?;
        assert_eq!(opened.updater.releaser.repo_name, REPO_NAME);
        if opened.must_save {
            self.save(&opened.updater)?;
        }
        Ok(opened.updater)
    }

    fn receive(&mut self, updater: &Updater<GithubReleaser>) -> Result<Result<Option<UpdateInfo>, Failure>, Failure> {
        match std::mem::replace(&mut self.channel, Channel::Closed) {
            Channel::Closed => Err(UpdaterError::Outside("receiving on a closed channel".to_string())),
            Channel::Message(info) => Ok(Ok(info)),
            Channel::FromWorker(file) => {
                let mut worker = updater.start_releaser_worker::<String>(file);
                loop {
                    let event = match &worker {
                        Worker::FetchVersion { .. } => Event::LatestVersion(self.latest_version()),
                        Worker::FetchUrl { .. } => Event::DownloadableUrl(self.downloadable_url()),
                        Worker::WriteStatus { file, info } => Event::StatusWritten(self.write_status(file, info)),
                        Worker::Send(_) => break,
                    };
                    worker = worker.resume(event);
                }
                match worker {
                    Worker::Send(message) => Ok(message),
                    _ => unreachable!(),
                }
            }
        }
    }

    fn update_ready(&mut self, updater: &mut Updater<GithubReleaser>) -> Result<bool, Failure> {
        tick();
        let pending = updater.update_ready::<String>(&self.workflow);
        self.finish(updater, pending)
    }

    fn finish(&mut self, updater: &mut Updater<GithubReleaser>, start: Check<String>) -> Result<bool, Failure> {
        let mut pending = start;
        loop {
            let event = match &pending {
                Check::SaveFirst => Event::Saved(self.save(updater)),
                Check::FetchVersion { .. } => Event::LatestVersion(self.latest_version()),
                Check::FetchUrl { .. } => Event::DownloadableUrl(self.downloadable_url()),
                Check::WriteStatus { file, info, .. } => Event::StatusWritten(self.write_status(file, info)),
                Check::SaveRelease { .. } => Event::Saved(self.save(updater)),
                Check::ReadStatus { file } => Event::StatusRead(self.read_status(file)),
                Check::Receive { .. } => Event::Received(self.receive(updater)),
                Check::SaveReceived { .. } => Event::Saved(self.save(updater)),
                Check::Done(_) => break,
            };
            pending = updater.resume(pending, event);
        }
        match pending {
            Check::Done(r) => r,
            _ => unreachable!(),
        }
    }

    fn init(&mut self, updater: &mut Updater<GithubReleaser>) -> Result<(), Failure> {
        tick();
        let mut worker_file = String::new();
        let mut pending = updater.init::<String>(&self.workflow);
        loop {
            let event = match &pending {
                Init::Save => Event::Saved(self.save(updater)),
                Init::StartWorker { file } => {
                    worker_file = file.clone();
                    Event::WorkerStarted(Ok(()))
                }
                Init::ReadStatus { file } => Event::StatusRead(self.read_status(file)),
                Init::Done(_) => break,
            };
            pending = updater.init_resume(pending, event);
        }
        match pending {
            Init::Done(Ok(Mailbox::Filled(info))) => {
                self.channel = Channel::Message(info);
                Ok(())
            }
            Init::Done(Ok(Mailbox::FromWorker)) => {
                self.channel = Channel::FromWorker(worker_file);
                Ok(())
            }
            Init::Done(Err(e)) => Err(e),
            _ => unreachable!(),
        }
    }

    fn download_latest(&mut self, updater: &Updater<GithubReleaser>) -> Result<String, Failure> {
        let mut pending = updater.download_latest::<String>();
        loop {
            let event = match &pending {
                Download::FetchUrl => Event::DownloadableUrl(self.downloadable_url()),
                Download::Request { url } => {
                    assert_eq!(url, RELEASE_URL);
                    Event::Responded(self.status())
                }
                Download::WriteFile { file } => {
                    self.downloaded = Some(file.clone());
                    Event::FileWritten(Ok(()))
                }
                Download::RemoveFile { .. } => panic!("nothing failed"),
                Download::Done(_) => break,
            };
            pending = pending.resume(event, &self.workflow);
        }
        match pending {
            Download::Done(r) => r,
            _ => unreachable!(),
        }
    }
}

#[test]
fn it_tests_settings_filename() {
    let world = World::new(200);
    let updater_state_fn = build_data_fn::<String>(&world.workflow).unwrap();
    assert_eq!(
        "workflow.B0AC54EC-601C-YouForgotTo___Name_Your_Own_Work_flow_-updater.json",
        updater_state_fn
    );
}

#[test]
fn it_ignores_saved_version_after_an_upgrade() {
    // A freshly upgraded workflow does not use version info from saved state.
    let mut world = World::new(200);
    {
        let mut updater = world.gh().expect("cannot build Updater");
        assert_eq!(VERSION_TEST, text(updater.current_version()));
        // First update_ready is always false.
        assert_eq!(false, world.update_ready(&mut updater).expect("couldn't check for update"));
    }
    {
        // Next check it reports a new version since the server has a release for us.
        let mut updater = world.gh().expect("cannot build Updater");
        updater.set_interval(0);
        assert_eq!(true, world.update_ready(&mut updater).expect("couldn't check for update"));
        assert_eq!(VERSION_TEST, text(updater.current_version()));
    }
    // Mimic the upgrade process by bumping the version.
    world.workflow.version = Some(VERSION_TEST_NEW.to_string());
    {
        let mut updater = world.gh().expect("cannot build Updater");
        // Updater should pick up new version rather than using saved one.
        assert_eq!(VERSION_TEST_NEW, text(updater.current_version()));
        // No more updates.
        assert_eq!(false, world.update_ready(&mut updater).expect("couldn't check for update"));
    }
}

#[test]
fn it_ignores_saved_version_after_an_upgrade_async() {
    let mut world = World::new(200);
    {
        let mut updater = world.gh().expect("cannot build Updater");
        assert_eq!(VERSION_TEST, text(updater.current_version()));
        // First update_ready is always false.
        assert_eq!(false, world.update_ready(&mut updater).expect("couldn't check for update"));
    }
    {
        let mut updater = world.gh().expect("cannot build Updater");
        updater.set_interval(0);
        world.init(&mut updater).expect("couldn't init worker");
        assert_eq!(true, world.update_ready(&mut updater).expect("couldn't check for update"));
        assert_eq!(VERSION_TEST, text(updater.current_version()));
    }
    world.workflow.version = Some(VERSION_TEST_NEW.to_string());
    {
        let mut updater = world.gh().expect("cannot build Updater");
        assert_eq!(VERSION_TEST_NEW, text(updater.current_version()));
        world.init(&mut updater).expect("couldn't init worker");
        // No more updates.
        assert_eq!(false, world.update_ready(&mut updater).expect("couldn't check for update"));
    }
}

#[test]
#[should_panic(expected = "ClientError(BadRequest)")]
fn it_handles_server_error() {
    let mut world = World::new(200);
    let mut updater = world.gh().expect("cannot build Updater");
    // First update_ready is always false.
    assert_eq!(false, world.update_ready(&mut updater).expect("couldn't check for update"));
    // Next check will be immediate.
    updater.set_interval(0);
    world.server_status = 400;
    // This should panic with a BadRequest (400) error.
    world.update_ready(&mut updater).unwrap();
}

#[test]
#[should_panic(expected = "ClientError(BadRequest)")]
fn it_handles_server_error_async() {
    let mut world = World::new(200);
    {
        let mut updater = world.gh().expect("cannot build Updater");
        assert_eq!(VERSION_TEST, text(updater.current_version()));
        world.init(&mut updater).expect("couldn't init worker");
        // First update_ready is always false.
        assert_eq!(false, world.update_ready(&mut updater).expect("couldn't check for update"));
    }
    {
        let mut updater = world.gh().expect("cannot build Updater");
        // Next check will be immediate.
        updater.set_interval(0);
        world.init(&mut updater).expect("couldn't init worker");
        world.server_status = 400;
        // This should panic with a BadRequest (400) error.
        world.update_ready(&mut updater).unwrap();
    }
}

#[test]
fn it_caches_workers_payload() {
    let mut world = World::new(200);
    {
        let mut updater = world.gh().expect("cannot build Updater");
        assert_eq!(VERSION_TEST, text(updater.current_version()));
        world.init(&mut updater).expect("couldn't init worker");
        // First update_ready is always false.
        assert_eq!(false, world.update_ready(&mut updater).expect("couldn't check for update"));
    }
    {
        let mut updater = world.gh().expect("cannot build Updater");
        // Next check will be immediate.
        updater.set_interval(0);
        world.init(&mut updater).expect("couldn't init worker");
        assert_eq!(true, world.update_ready(&mut updater).expect("couldn't check for update"));

        // Subsequent calls to update_ready should cache the payload.
        world.server_status = 400;
        assert_eq!(true, world.update_ready(&mut updater).expect("couldn't check for update"));
        assert_eq!(true, world.update_ready(&mut updater).expect("couldn't check for update"));
        assert_eq!(true, world.update_ready(&mut updater).expect("couldn't check for update"));
        assert_eq!(1, world.server_calls);
    }
}

#[test]
fn it_get_latest_info_from_releaser() {
    let mut world = World::new(200);
    {
        // Blocking
        let mut updater = world.gh().expect("cannot build Updater");
        assert_eq!(false, world.update_ready(&mut updater).expect("couldn't check for update"));
        // Next check will be immediate.
        updater.set_interval(0);
        assert!(world.update_ready(&mut updater).expect("couldn't check for update"));
    }
    {
        // Non-blocking
        let mut updater = world.gh().expect("cannot build Updater");
        // Next check will be immediate.
        updater.set_interval(0);
        // Start async worker.
        world.init(&mut updater).expect("couldn't init worker");
        assert!(world.update_ready(&mut updater).expect("couldn't check for update"));
    }
}

#[test]
fn it_does_one_network_call_per_interval() {
    let mut world = World::new(200);
    let mut updater = world.gh().expect("cannot build Updater");

    // Calling update_ready on first run of workflow will return false since we assume workflow
    // was just downloaded.
    assert!(!world.update_ready(&mut updater).expect("couldn't check for update"));

    // Next check will be immediate.
    updater.set_interval(0);

    // Next update_ready will make a network call.
    assert!(world.update_ready(&mut updater).expect("couldn't check for update"));

    // Increase interval.
    updater.set_interval(86400);
    assert!(!updater.due_to_check());

    // Make the server return errors. This way we can test that no network call was made
    // assuming Updater can read its cache file successfully.
    world.server_status = 503;
    let t = world.update_ready(&mut updater);
    assert!(t.is_ok());
    // Make sure we still report update is ready.
    assert_eq!(true, t.unwrap());
    assert_eq!(1, world.server_calls);
}

#[test]
fn it_tests_download() {
    let mut world = World::new(200);
    let mut updater = world.gh().expect("cannot build Updater");
    assert_eq!(false, world.update_ready(&mut updater).expect("couldn't check for update"));

    // Next check will be immediate.
    updater.set_interval(0);
    // Force current version to be really old.
    updater.set_version("0.0.1");
    assert!(world.update_ready(&mut updater).expect("couldn't check for update"));
    assert!(world.download_latest(&updater).is_ok());
    assert_eq!(
        world.downloaded.as_deref(),
        Some("latest_release_workflow.B0AC54EC-601C.alfredworkflow")
    );
}

#[test]
fn a_state_that_was_saved_comes_back_with_the_default_interval() {
    let mut world = World::new(200);
    let mut updater = world.gh().unwrap();
    assert_eq!(Ok(false), world.update_ready(&mut updater));
    updater.set_interval(0);
    assert_eq!(Ok(true), world.update_ready(&mut updater));

    let again = world.gh().unwrap();
    assert_eq!(again.state.current_version, updater.state.current_version);
    assert_eq!(again.state.avail_version, updater.state.avail_version);
    assert_eq!(again.last_check(), updater.last_check());
    assert_eq!(again.update_interval(), 86400);
    assert_eq!(again.state.worker_state, None);
}

#[test]
fn a_release_that_the_worker_wrote_is_found_in_the_next_run() {
    let mut world = World::new(200);
    let mut updater = world.gh().unwrap();
    assert_eq!(Ok(false), world.update_ready(&mut updater));
    updater.set_interval(0);
    world.init(&mut updater).unwrap();
    assert_eq!(Ok(true), world.update_ready(&mut updater));

    world.server_status = 503;
    let mut updater = world.gh().unwrap();
    world.init(&mut updater).unwrap();
    assert_eq!(Ok(true), world.update_ready(&mut updater));
    assert_eq!(1, world.server_calls);
}

#[test]
fn an_error_from_the_server_leaves_a_blocking_check_due() {
    let mut world = World::new(200);
    let mut updater = world.gh().unwrap();
    assert_eq!(Ok(false), world.update_ready(&mut updater));
    let noted = updater.last_check();
    updater.set_interval(0);
    world.server_status = 503;
    let failure = UpdaterError::Outside("ServerError(ServiceUnavailable)".to_string());
    assert_eq!(Err(failure), world.update_ready(&mut updater));
    assert_eq!(updater.last_check(), noted);
    assert_eq!(updater.state.avail_version, None);
    assert!(updater.due_to_check());
}

#[test]
fn an_error_from_the_worker_counts_as_a_check() {
    let mut world = World::new(200);
    let mut updater = world.gh().unwrap();
    assert_eq!(Ok(false), world.update_ready(&mut updater));
    let noted = updater.last_check();
    updater.set_interval(0);
    world.init(&mut updater).unwrap();
    world.server_status = 503;
    let failure = UpdaterError::Outside("ServerError(ServiceUnavailable)".to_string());
    assert_eq!(Err(failure), world.update_ready(&mut updater));
    assert_ne!(updater.last_check(), noted);
    assert_eq!(world.data.as_ref().unwrap().last_check, updater.last_check());
    // The worker has ended: nothing more comes from it.
    let silent = UpdaterError::Outside("receiving on a closed channel".to_string());
    assert_eq!(Err(silent), world.update_ready(&mut updater));
}

#[test]
fn a_missing_status_file_means_no_update() {
    let mut world = World::new(200);
    let mut updater = world.gh().unwrap();
    assert_eq!(Ok(false), world.update_ready(&mut updater));
    // Not due, and nothing was written yet.
    assert_eq!(Ok(false), world.update_ready(&mut updater));
    assert_eq!(0, world.server_calls);
}

#[test]
fn without_an_environment_no_check_is_made() {
    let mut world = World::new(200);
    let mut updater = world.gh().unwrap();
    world.workflow.has_data_dir = false;
    assert_eq!(Err(UpdaterError::MissingDataDir), world.update_ready(&mut updater));
    assert_eq!(Err(UpdaterError::MissingDataDir), world.init(&mut updater));
    world.workflow.has_data_dir = true;
    world.workflow.uid = None;
    assert_eq!(Err(UpdaterError::MissingUid), world.update_ready(&mut updater));
    assert_eq!(updater.last_check(), None);
    assert!(matches!(world.gh(), Err(UpdaterError::MissingUid)));
}

#[test]
fn a_check_that_does_not_wait_for_the_worker() {
    let mut world = World::new(200);
    let mut updater = world.gh().unwrap();
    assert!(matches!(
        updater.update_ready_async_::<String>(true),
        Check::Done(Err(UpdaterError::NotInitialized))
    ));
    assert_eq!(Ok(false), world.update_ready(&mut updater));
    updater.set_interval(0);
    world.init(&mut updater).unwrap();
    assert!(matches!(updater.update_ready_async_::<String>(true), Check::Receive { blocking: false }));
    let pending = updater.update_ready_async_::<String>(false);
    assert!(matches!(pending, Check::Receive { blocking: true }));
    assert_eq!(Ok(true), world.finish(&mut updater, pending));
}
