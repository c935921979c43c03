//! Single decisions, on chosen values.

use alfred_updater::check::Check;
use alfred_updater::download::Download;
use alfred_updater::error::UpdaterError;
use alfred_updater::event::Event;
use alfred_updater::moment::{Moment, FIRST_SECOND, LAST_SECOND, LONGEST_INTERVAL};
use alfred_updater::names::{
    build_data_fn, build_release_fn, sanitize, with_file_name, Workflow,
    LATEST_UPDATE_INFO_CACHE_FN, LATEST_UPDATE_INFO_CACHE_FN_ASYNC,
};
use alfred_updater::releaser::Releaser;
use alfred_updater::state::{default_interval, MPSCState, SavedState, UpdateInfo, UpdaterState};
use alfred_updater::store::Store;
use alfred_updater::updater::{load, Updater};
use alfred_updater::version::{Identifier, Version};
use alfred_updater::worker::{Init, Mailbox, Worker};

type Failure = UpdaterError<u8>;

fn workflow(version: Option<&str>) -> Workflow {
    Workflow {
        name: Some("My Flow".to_string()),
        uid: Some("id".to_string()),
        version: version.map(|v| v.to_string()),
        has_data_dir: true,
        has_cache_dir: true,
    }
}

fn at(secs: i64, nanos: u32) -> Moment {
    Moment::new(secs, nanos).unwrap()
}

fn version(text: &str) -> Version {
    Version::parse(text).unwrap()
}

fn info(text: &str) -> UpdateInfo {
    UpdateInfo { avail_version: version(text), downloadable_url: "https://a.b/c".to_string() }
}

fn updater(current: &str, last_check: Option<Moment>) -> Updater<()> {
    let saved = SavedState { current_version: version(current), avail_version: None, last_check };
    Updater { state: saved.restore(), releaser: () }
}

#[test]
fn versions_are_read_from_text() {
    let v = version("1.2.3-alpha.7+build.01");
    assert_eq!((v.major, v.minor, v.patch), (1, 2, 3));
    assert_eq!(v.pre, vec![Identifier::AlphaNumeric("alpha".to_string()), Identifier::Numeric(7)]);
    assert_eq!(
        v.build,
        vec![Identifier::AlphaNumeric("build".to_string()), Identifier::AlphaNumeric("01".to_string())]
    );
    assert_eq!(Version::parse(" 0.10.5 "), Ok(Version::new(0, 10, 5)));
    assert_eq!(Version::parse("1.2"), Err("Expected dot".to_string()));
    assert_eq!(Version::parse(""), Err("Error parsing major identifier".to_string()));
    assert_eq!(Version::parse("v1.2.3"), Err("Error parsing major identifier".to_string()));
}

#[test]
fn a_tag_may_start_with_the_letter_v() {
    assert_eq!(Version::parse_tag("v0.3.1"), Ok(Version::new(0, 3, 1)));
    assert_eq!(Version::parse_tag("0.3.1"), Ok(Version::new(0, 3, 1)));
    assert!(Version::parse_tag("vv0.3.1").is_err());
    assert!(Version::parse_tag("v").is_err());
    assert!(Version::parse_tag("").is_err());
}

#[test]
fn precedence_follows_semantic_versioning() {
    let ordered = [
        "0.0.1", "0.10.5", "0.11.1", "1.0.0-1", "1.0.0-2", "1.0.0-10", "1.0.0-alpha",
        "1.0.0-alpha.1", "1.0.0-alpha.beta", "1.0.0-beta", "1.0.0-beta.2", "1.0.0-beta.11",
        "1.0.0-rc.1", "1.0.0", "2.0.0",
    ];
    for (i, a) in ordered.iter().enumerate() {
        for (j, b) in ordered.iter().enumerate() {
            assert_eq!(version(a).is_older_than(&version(b)), i < j, "{} and {}", a, b);
        }
    }
    // Build metadata has no say.
    assert!(!version("1.0.0+1").is_older_than(&version("1.0.0+2")));
    assert!(!version("1.0.0+2").is_older_than(&version("1.0.0+1")));
}

#[test]
fn copies_of_a_version_say_the_same() {
    let v = version("1.2.3-rc.4+x");
    assert_eq!(v.clone(), v);
    let i = info("1.2.3-rc.4+x");
    assert_eq!(i.clone(), i);
}

#[test]
fn moments_lie_on_the_calendar() {
    assert!(Moment::new(0, 999_999_999).is_some());
    assert!(Moment::new(0, 1_000_000_000).is_none());
    // A leap second is the last of its minute.
    assert!(Moment::new(59, 1_999_999_999).is_some());
    assert!(Moment::new(59, 2_000_000_000).is_none());
    assert!(Moment::new(-1, 1_500_000_000).is_some());
    assert!(Moment::new(FIRST_SECOND, 0).is_some());
    assert!(Moment::new(FIRST_SECOND - 1, 0).is_none());
    assert!(Moment::new(LAST_SECOND, 999_999_999).is_some());
    assert!(Moment::new(LAST_SECOND + 1, 0).is_none());
    // The calendar is chrono's.
    assert!(chrono::DateTime::from_timestamp(FIRST_SECOND, 0).is_some());
    assert!(chrono::DateTime::from_timestamp(FIRST_SECOND - 1, 0).is_none());
    assert!(chrono::DateTime::from_timestamp(LAST_SECOND, 0).is_some());
    assert!(chrono::DateTime::from_timestamp(LAST_SECOND + 1, 0).is_none());
    let m = at(1_500_000_000, 7);
    assert_eq!((m.timestamp(), m.subsec_nanos()), (1_500_000_000, 7));
    let now = Moment::now();
    assert!(now.timestamp() > 1_500_000_000);
    assert_eq!(Moment::new(now.timestamp(), now.subsec_nanos()), Some(now));
}

#[test]
fn time_is_measured_to_the_nanosecond() {
    assert!(at(200, 5).is_later_by_more_than(100, &at(100, 4)));
    assert!(!at(200, 4).is_later_by_more_than(100, &at(100, 4)));
    assert!(!at(200, 3).is_later_by_more_than(100, &at(100, 4)));
    assert!(at(200, 3).is_later_by_more_than(99, &at(100, 4)));
    // A clock that went back.
    assert!(at(100, 0).is_later_by_more_than(-101, &at(200, 0)));
    assert!(!at(100, 0).is_later_by_more_than(-100, &at(200, 0)));
    assert!(at(100, 1).is_later_by_more_than(-100, &at(200, 0)));
    assert!(!at(99, 999_999_999).is_later_by_more_than(0, &at(100, 0)));
    assert!(at(99, 999_999_999).is_later_by_more_than(-1, &at(100, 0)));
    // The far ends.
    assert!(at(LAST_SECOND, 0).is_later_by_more_than(16_544_868_105_598, &at(FIRST_SECOND, 0)));
    assert!(!at(LAST_SECOND, 0).is_later_by_more_than(16_544_868_105_599, &at(FIRST_SECOND, 0)));
    assert!(!at(LAST_SECOND, 0).is_later_by_more_than(LONGEST_INTERVAL, &at(FIRST_SECOND, 0)));
    assert!(at(FIRST_SECOND, 0).is_later_by_more_than(-LONGEST_INTERVAL, &at(LAST_SECOND, 0)));
}

#[test]
fn leap_seconds_are_counted() {
    // Half way through the leap second 23:59:60.
    let leap = at(86_399, 1_500_000_000);
    // From 23:00:00 it is an hour and half a second.
    assert!(leap.is_later_by_more_than(3600, &at(82_800, 0)));
    assert!(!leap.is_later_by_more_than(3601, &at(82_800, 0)));
    // To 01:00:00 of the next day the seconds of the day fall back.
    let next = at(86_400 + 3600, 0);
    assert!(next.is_later_by_more_than(3599, &leap));
    assert!(!next.is_later_by_more_than(3600, &leap));
    // To a later second of the same day's clock, an hour after 12:00:59.5 leap.
    let noon = at(43_259, 1_500_000_000);
    assert!(at(46_859, 0).is_later_by_more_than(3599, &noon));
    assert!(!at(46_859, 500_000_000).is_later_by_more_than(3600, &noon));
}

#[test]
fn a_check_is_due_once_the_interval_has_passed() {
    let mut u = updater("1.0.0", Some(at(1000, 0)));
    assert_eq!(u.update_interval(), 86_400);
    assert!(!u.due_to_check_at(&at(1000, 0)));
    assert!(!u.due_to_check_at(&at(87_400, 0)));
    assert!(u.due_to_check_at(&at(87_400, 1)));
    u.set_interval(7 * 24 * 60 * 60);
    assert!(!u.due_to_check_at(&at(87_400, 1)));
    u.set_interval(0);
    assert!(!u.due_to_check_at(&at(1000, 0)));
    assert!(u.due_to_check_at(&at(1000, 1)));
    u.set_interval(-1);
    assert!(u.due_to_check_at(&at(1000, 0)));
    assert!(updater("1.0.0", None).due_to_check_at(&at(0, 0)));
    assert!(updater("1.0.0", None).due_to_check());
    assert!(u.due_to_check());
    assert_eq!(default_interval(), 86_400);
}

#[test]
fn files_are_named_after_the_workflow() {
    assert_eq!(sanitize("a-Z 0_ü/9"), "a_Z_0___9");
    assert_eq!(sanitize(""), "");
    let mut w = workflow(None);
    assert_eq!(build_data_fn::<u8>(&w), Ok("id-My_Flow-updater.json".to_string()));
    assert_eq!(build_release_fn::<u8>(&w), Ok("latest_release_id.alfredworkflow".to_string()));
    w.name = None;
    assert_eq!(
        build_data_fn::<u8>(&w),
        Ok("id-YouForgotTo___NameYourOwnWork_flow_-updater.json".to_string())
    );
    w.has_cache_dir = false;
    assert_eq!(build_release_fn::<u8>(&w), Err(UpdaterError::MissingCacheDir));
    w.uid = None;
    assert_eq!(build_release_fn::<u8>(&w), Err(UpdaterError::MissingCacheDir));
    assert_eq!(build_data_fn::<u8>(&w), Err(UpdaterError::MissingUid));
    w.has_data_dir = false;
    assert_eq!(build_data_fn::<u8>(&w), Err(UpdaterError::MissingDataDir));
    w.has_cache_dir = true;
    assert_eq!(build_release_fn::<u8>(&w), Err(UpdaterError::MissingUid));
}

#[test]
fn a_file_name_is_replaced_in_its_folder() {
    for path in ["id-x-updater.json", "a/id-x-updater.json", "/a/b/id-x-updater.json", "ü/フ.json"] {
        let expected = std::path::Path::new(path).with_file_name("s.json");
        assert_eq!(with_file_name(path, "s.json"), expected.to_str().unwrap());
    }
}

#[test]
fn the_updaters_files_are_different() {
    let mut w = workflow(None);
    w.uid = Some("a/id".to_string());
    let data = build_data_fn::<u8>(&w).unwrap();
    let status = with_file_name(&data, LATEST_UPDATE_INFO_CACHE_FN);
    let worker_status = with_file_name(&data, LATEST_UPDATE_INFO_CACHE_FN_ASYNC);
    assert_eq!(data, "a/id-My_Flow-updater.json");
    assert_eq!(status, "a/last_check_status.json");
    assert_eq!(worker_status, "a/last_check_status_async.json");
}

#[test]
fn a_check_keeps_version_interval_and_worker() {
    let mut u = updater("1.0.0", Some(at(0, 0)));
    u.set_interval(5);
    let i = u.init_at::<u8>(&workflow(None), at(6, 0));
    let _ = u.init_resume(i, Event::WorkerStarted(Ok(())));
    let c = u.update_ready_at::<u8>(&workflow(None), at(6, 0));
    let c = u.resume_at(c, Event::Received(Ok(Ok(Some(info("1.0.1"))))), at(7, 0));
    let _ = u.resume_at(c, Event::Saved(Ok(())), at(7, 0));
    assert_eq!(u.current_version(), &version("1.0.0"));
    assert_eq!(u.update_interval(), 5);
    let payload = Some(Some(info("1.0.1")));
    assert_eq!(u.state.worker_state, Some(MPSCState { recvd_payload: payload, has_receiver: true }));
}

#[test]
fn loading_says_what_is_missing() {
    let saved = || SavedState {
        current_version: version("1.0.0"),
        avail_version: Some(info("1.1.0")),
        last_check: Some(at(5, 6)),
    };
    let state = load::<u8>(&workflow(None), Some(Ok(saved()))).unwrap();
    assert_eq!(state, saved().restore());
    assert_eq!(state.update_interval, 86_400);
    assert_eq!(load::<u8>(&workflow(None), None), Err(UpdaterError::MissingDataFile));
    assert_eq!(
        load::<u8>(&workflow(None), Some(Err(UpdaterError::Outside(3)))),
        Err(UpdaterError::Outside(3))
    );
    let mut w = workflow(None);
    w.has_data_dir = false;
    assert_eq!(load::<u8>(&w, Some(Ok(saved()))), Err(UpdaterError::MissingDataDir));
}

#[test]
fn the_newer_of_saved_and_named_version_counts() {
    let start = |saved: &str, named: Option<&str>| {
        let loaded: Result<UpdaterState, Failure> = Ok(UpdaterState::fresh(version(saved)));
        let opened = Updater::load_or_new((), loaded, &workflow(named)).ok().unwrap();
        assert!(!opened.must_save);
        opened.updater.state.current_version
    };
    assert_eq!(start("1.0.0", Some("1.0.1")), version("1.0.1"));
    assert_eq!(start("1.0.0", Some("0.9.0")), version("1.0.0"));
    assert_eq!(start("1.0.0-rc.1", Some("1.0.0")), version("1.0.0"));
    assert_eq!(start("1.0.0", None), version("1.0.0"));
}

#[test]
fn a_fresh_updater_takes_the_named_version_and_asks_to_be_saved() {
    for missing in [UpdaterError::MissingDataFile, UpdaterError::MissingDataDir, UpdaterError::MissingUid] {
        let loaded: Result<UpdaterState, Failure> = Err(missing);
        let opened = Updater::load_or_new(7u8, loaded, &workflow(Some("2.3.4"))).ok().unwrap();
        assert!(opened.must_save);
        assert_eq!(opened.updater.releaser, 7);
        assert_eq!(opened.updater.state, UpdaterState::fresh(version("2.3.4")));
    }
    let loaded: Result<UpdaterState, Failure> = Err(UpdaterError::MissingDataFile);
    let opened = Updater::load_or_new((), loaded, &workflow(None)).ok().unwrap();
    assert_eq!(opened.updater.state.current_version, Version::new(0, 0, 0));
    assert_eq!(opened.updater.last_check(), None);
    assert_eq!(opened.updater.update_interval(), 86_400);
}

#[test]
fn an_updater_does_not_start_from_what_cannot_be_read() {
    let unreadable: Result<UpdaterState, Failure> = Err(UpdaterError::Outside(9));
    assert!(matches!(
        Updater::load_or_new((), unreadable, &workflow(Some("1.0.0"))),
        Err(UpdaterError::Outside(9))
    ));
    for loaded in [Ok(UpdaterState::fresh(version("1.0.0"))), Err(UpdaterError::MissingDataFile)] {
        let loaded: Result<UpdaterState, Failure> = loaded;
        match Updater::load_or_new((), loaded, &workflow(Some("1.0"))) {
            Err(UpdaterError::InvalidVersion(m)) => assert_eq!(m, "Expected dot"),
            _ => panic!("1.0 is not a semantic version"),
        }
    }
}

struct CiReleaser {
    project: String,
}

impl Releaser for CiReleaser {
    fn new(project_id: String) -> Self {
        CiReleaser { project: project_id }
    }
}

#[test]
fn a_releaser_is_made_for_the_project() {
    let loaded: Result<UpdaterState, Failure> = Err(UpdaterError::MissingDataFile);
    let opened = Updater::<CiReleaser>::new("my_hidden_proj".to_string(), loaded, &workflow(None));
    assert_eq!(opened.ok().unwrap().updater.releaser.project, "my_hidden_proj");
    let loaded: Result<UpdaterState, Failure> = Err(UpdaterError::MissingDataFile);
    let opened = Updater::gh("kballard/alfred-rs".to_string(), loaded, &workflow(None)).ok().unwrap();
    assert_eq!(opened.updater.releaser.repo_name, "kballard/alfred-rs");
    assert_eq!(opened.updater.releaser.clone(), opened.updater.releaser);
}

#[test]
fn the_version_can_be_set() {
    let mut u = updater("1.0.0", None);
    let var = u.set_version("0.23.3");
    assert_eq!(u.current_version(), &version("0.23.3"));
    assert_eq!((var.name.as_str(), var.value.as_str()), ("alfred_workflow_version", "0.23.3"));
    let var = u.try_set_version("0.24.0").unwrap();
    assert_eq!(u.current_version(), &version("0.24.0"));
    assert_eq!((var.name.as_str(), var.value.as_str()), ("alfred_workflow_version", "0.24.0"));
    assert_eq!(u.try_set_version("new"), Err("Error parsing major identifier".to_string()));
    assert_eq!(u.current_version(), &version("0.24.0"));
}

#[test]
fn a_blocking_check_goes_step_by_step() {
    let mut u = updater("1.0.0", Some(at(0, 0)));
    let now = at(100_000, 0);
    let c = u.update_ready_at::<u8>(&workflow(None), now);
    assert!(matches!(&c, Check::FetchVersion { file } if file == "last_check_status.json"));
    // An outcome of something else changes nothing.
    let c = u.resume_at(c, Event::Saved(Ok(())), now);
    assert!(matches!(&c, Check::FetchVersion { .. }));
    let c = u.resume_at(c, Event::LatestVersion(Ok(version("1.0.1"))), now);
    assert!(matches!(&c, Check::FetchUrl { update_avail: true, .. }));
    let c = u.resume_at(c, Event::DownloadableUrl(Ok("https://a.b/c".to_string())), now);
    assert!(matches!(&c, Check::WriteStatus { info: i, .. } if *i == info("1.0.1")));
    assert_eq!(u.last_check(), Some(at(0, 0)));
    let written = at(100_001, 0);
    let c = u.resume_at(c, Event::StatusWritten(Ok(())), written);
    assert!(matches!(&c, Check::SaveRelease { update_avail: true }));
    assert_eq!(u.last_check(), Some(written));
    assert_eq!(u.state.avail_version, Some(info("1.0.1")));
    let c = u.resume_at(c, Event::Saved(Ok(())), written);
    assert!(matches!(c, Check::Done(Ok(true))));
}

#[test]
fn every_failure_ends_a_blocking_check() {
    let start = || updater("1.0.0", Some(at(0, 0)));
    let now = at(100_000, 0);
    let fetch = |u: &mut Updater<()>| u.update_ready_at::<u8>(&workflow(None), now);

    let mut u = start();
    let c = fetch(&mut u);
    let c = u.resume_at(c, Event::LatestVersion(Err(UpdaterError::Outside(1))), now);
    assert!(matches!(c, Check::Done(Err(UpdaterError::Outside(1)))));
    assert_eq!(u.state, start().state);

    let mut u = start();
    let c = fetch(&mut u);
    let c = u.resume_at(c, Event::LatestVersion(Ok(version("1.0.1"))), now);
    let c = u.resume_at(c, Event::DownloadableUrl(Err(UpdaterError::Outside(2))), now);
    assert!(matches!(c, Check::Done(Err(UpdaterError::Outside(2)))));
    assert_eq!(u.state, start().state);

    let mut u = start();
    let c = fetch(&mut u);
    let c = u.resume_at(c, Event::LatestVersion(Ok(version("0.9.0"))), now);
    let c = u.resume_at(c, Event::DownloadableUrl(Ok("https://a.b/c".to_string())), now);
    let c = u.resume_at(c, Event::StatusWritten(Err(UpdaterError::Outside(3))), now);
    assert!(matches!(c, Check::Done(Err(UpdaterError::Outside(3)))));
    assert_eq!(u.state, start().state);

    let mut u = updater("1.0.0", None);
    let c = fetch(&mut u);
    assert!(matches!(c, Check::SaveFirst));
    let c = u.resume_at(c, Event::Saved(Err(UpdaterError::Outside(4))), now);
    assert!(matches!(c, Check::Done(Err(UpdaterError::Outside(4)))));
    assert_eq!(u.last_check(), Some(now));
}

#[test]
fn the_last_outcome_answers_within_the_interval() {
    let mut u = updater("1.0.0", Some(at(0, 0)));
    let now = at(10, 0);
    let mut answer = |status: Result<Option<UpdateInfo>, Failure>| {
        let c = u.update_ready_at::<u8>(&workflow(None), now);
        assert!(matches!(&c, Check::ReadStatus { file } if file == "last_check_status.json"));
        match u.resume_at(c, Event::StatusRead(status), now) {
            Check::Done(r) => r,
            _ => panic!("the check is over"),
        }
    };
    assert_eq!(answer(Ok(Some(info("1.0.1")))), Ok(true));
    assert_eq!(answer(Ok(Some(info("1.0.0")))), Ok(false));
    assert_eq!(answer(Ok(Some(info("0.9.9")))), Ok(false));
    assert_eq!(answer(Ok(None)), Ok(false));
    assert_eq!(answer(Err(UpdaterError::Outside(1))), Ok(false));
}

#[test]
fn the_worker_is_set_up() {
    let now = at(100_000, 0);
    // Never checked: the time is noted, the mailbox holds no release.
    let mut u = updater("1.0.0", None);
    let i = u.init_at::<u8>(&workflow(None), now);
    assert!(matches!(i, Init::Save));
    assert_eq!(u.last_check(), Some(now));
    let i = u.init_resume(i, Event::Saved(Ok(())));
    assert!(matches!(i, Init::Done(Ok(Mailbox::Filled(None)))));
    assert_eq!(u.state.worker_state, Some(MPSCState { recvd_payload: None, has_receiver: true }));

    // Due: a worker is started.
    let mut u = updater("1.0.0", Some(at(0, 0)));
    let i = u.init_at::<u8>(&workflow(None), now);
    assert!(matches!(&i, Init::StartWorker { file } if file == "last_check_status_async.json"));
    let i = u.init_resume(i, Event::WorkerStarted(Err(UpdaterError::Outside(1))));
    assert!(matches!(i, Init::Done(Err(UpdaterError::Outside(1)))));
    assert_eq!(u.state.worker_state, None);
    let i = u.init_at::<u8>(&workflow(None), now);
    let i = u.init_resume(i, Event::WorkerStarted(Ok(())));
    assert!(matches!(i, Init::Done(Ok(Mailbox::FromWorker))));

    // Not due: the last outcome, if it is newer.
    let cases = [
        (Ok(Some(info("1.0.1"))), Some(info("1.0.1"))),
        (Ok(Some(info("1.0.0"))), None),
        (Ok(None), None),
        (Err(UpdaterError::Outside(2)), None),
    ];
    for (status, expected) in cases {
        let mut u = updater("1.0.0", Some(at(99_999, 0)));
        let i = u.init_at::<u8>(&workflow(None), now);
        assert!(matches!(&i, Init::ReadStatus { file } if file == "last_check_status_async.json"));
        match u.init_resume(i, Event::StatusRead(status)) {
            Init::Done(Ok(Mailbox::Filled(i))) => assert_eq!(i, expected),
            _ => panic!("the worker is set up"),
        }
    }
}

#[test]
fn the_worker_asks_and_reports() {
    let u = updater("1.0.0", None);
    let w = u.start_releaser_worker::<u8>("f".to_string());
    let w = w.resume(Event::LatestVersion(Ok(version("1.0.1"))));
    assert!(matches!(&w, Worker::FetchUrl { file, .. } if file == "f"));
    let w = w.resume(Event::DownloadableUrl(Ok("https://a.b/c".to_string())));
    assert!(matches!(&w, Worker::WriteStatus { file, info: i } if file == "f" && *i == info("1.0.1")));
    let w = w.resume(Event::StatusWritten(Ok(())));
    assert!(matches!(&w, Worker::Send(Ok(Some(i))) if *i == info("1.0.1")));

    let w = u.start_releaser_worker::<u8>("f".to_string());
    let w = w.resume(Event::LatestVersion(Err(UpdaterError::Outside(1))));
    assert!(matches!(w, Worker::Send(Err(UpdaterError::Outside(1)))));
    let w = u.start_releaser_worker::<u8>("f".to_string());
    let w = w.resume(Event::LatestVersion(Ok(version("1.0.1"))));
    let w = w.resume(Event::DownloadableUrl(Err(UpdaterError::Outside(2))));
    assert!(matches!(w, Worker::Send(Err(UpdaterError::Outside(2)))));
    let w = u.start_releaser_worker::<u8>("f".to_string());
    let w = w.resume(Event::LatestVersion(Ok(version("1.0.1"))));
    let w = w.resume(Event::DownloadableUrl(Ok("https://a.b/c".to_string())));
    let w = w.resume(Event::StatusWritten(Err(UpdaterError::Outside(3))));
    assert!(matches!(w, Worker::Send(Err(UpdaterError::Outside(3)))));
}

#[test]
fn a_message_from_the_worker_is_taken_once() {
    let mut u = updater("1.0.0", Some(at(0, 0)));
    u.state.worker_state = Some(MPSCState { recvd_payload: None, has_receiver: true });
    let now = at(5, 0);
    let c = u.update_ready_at::<u8>(&workflow(None), now);
    assert!(matches!(c, Check::Receive { blocking: true }));
    let c = u.resume_at(c, Event::Received(Ok(Ok(Some(info("1.0.1"))))), now);
    assert!(matches!(c, Check::SaveReceived { failure: None }));
    assert_eq!(u.last_check(), Some(now));
    let c = u.resume_at(c, Event::Saved(Ok(())), now);
    assert!(matches!(c, Check::Done(Ok(true))));
    let c = u.update_ready_at::<u8>(&workflow(None), at(6, 0));
    assert!(matches!(c, Check::Done(Ok(true))));
    assert_eq!(u.last_check(), Some(now));

    u.state.worker_state = Some(MPSCState { recvd_payload: None, has_receiver: false });
    let c = u.update_ready_at::<u8>(&workflow(None), now);
    assert!(matches!(c, Check::Done(Err(UpdaterError::NoReceiver))));
}

#[test]
fn the_interval_does_not_matter_where_no_time_is_measured() {
    let now = at(5, 0);
    let mut bare = workflow(None);
    bare.has_data_dir = false;
    let mut u = updater("1.0.0", Some(at(0, 0)));
    u.set_interval(i64::MAX);
    let c = u.update_ready_at::<u8>(&bare, now);
    assert!(matches!(c, Check::Done(Err(UpdaterError::MissingDataDir))));
    let i = u.init_at::<u8>(&bare, now);
    assert!(matches!(i, Init::Done(Err(UpdaterError::MissingDataDir))));
    assert_eq!(u.state.worker_state, None);

    u.state.worker_state = Some(MPSCState { recvd_payload: None, has_receiver: true });
    let c = u.update_ready_at::<u8>(&workflow(None), now);
    assert!(matches!(c, Check::Receive { blocking: true }));
    assert!(matches!(u.update_ready::<u8>(&bare), Check::Receive { blocking: true }));
}

#[test]
fn a_message_that_cannot_be_saved_is_an_error() {
    let mut u = updater("1.0.0", Some(at(0, 0)));
    u.state.worker_state = Some(MPSCState { recvd_payload: None, has_receiver: true });
    let now = at(5, 0);
    let c = u.update_ready_at::<u8>(&workflow(None), now);
    let c = u.resume_at(c, Event::Received(Ok(Err(UpdaterError::Outside(1)))), now);
    assert!(matches!(&c, Check::SaveReceived { failure: Some(UpdaterError::Outside(1)) }));
    let c = u.resume_at(c, Event::Saved(Err(UpdaterError::Outside(2))), now);
    assert!(matches!(c, Check::Done(Err(UpdaterError::Outside(2)))));

    let c = u.update_ready_at::<u8>(&workflow(None), now);
    let c = u.resume_at(c, Event::Received(Err(UpdaterError::Outside(3))), at(7, 0));
    assert!(matches!(c, Check::Done(Err(UpdaterError::Outside(3)))));
    assert_eq!(u.last_check(), Some(now));
}

#[test]
fn the_strict_check_reports_the_workers_error() {
    let mut u = updater("1.0.0", Some(at(0, 0)));
    u.state.worker_state = Some(MPSCState { recvd_payload: None, has_receiver: true });
    let c = u.update_ready_async__::<u8>();
    assert!(matches!(c, Check::Receive { blocking: true }));
    let before = u.state.to_saved();
    let c = u.resume_strict_at(c, Event::Received(Ok(Err(UpdaterError::Outside(1)))), at(5, 0));
    match c {
        Check::Done(Err(UpdaterError::WorkerFailed(e))) => assert_eq!(*e, UpdaterError::Outside(1)),
        _ => panic!("the worker failed"),
    }
    assert_eq!(u.state.to_saved(), before);
    assert_eq!(u.state.worker_state, Some(MPSCState { recvd_payload: None, has_receiver: true }));

    let c = u.update_ready_async__::<u8>();
    let c = u.resume_strict_at(c, Event::Received(Err(UpdaterError::Outside(2))), at(5, 0));
    assert!(matches!(c, Check::Done(Err(UpdaterError::Outside(2)))));
    assert_eq!(u.state.to_saved(), before);

    let c = u.update_ready_async__::<u8>();
    let c = u.resume_strict_at(c, Event::Received(Ok(Ok(Some(info("1.0.1"))))), at(5, 0));
    let c = u.resume_strict_at(c, Event::Saved(Ok(())), at(5, 0));
    assert!(matches!(c, Check::Done(Ok(true))));
    assert!(matches!(u.update_ready_async__::<u8>(), Check::Done(Ok(true))));
}

#[test]
fn a_file_that_failed_is_removed() {
    let u = updater("1.0.0", Some(at(1, 2)));
    let (s, content) = u.save::<u8>(&workflow(None));
    assert_eq!(content, u.state.to_saved());
    assert_eq!(content.last_check, Some(at(1, 2)));
    assert!(matches!(&s, Store::MakeFolder { file } if file == "id-My_Flow-updater.json"));
    let s = s.resume(Event::FolderMade(Ok(())));
    let s = s.resume(Event::FileWritten(Err(UpdaterError::Outside(1))));
    assert!(matches!(&s, Store::RemoveFile { file, .. } if file == "id-My_Flow-updater.json"));
    let s = s.resume(Event::FileRemoved(Err(UpdaterError::Outside(2))));
    assert!(matches!(s, Store::Done(Err(UpdaterError::Outside(1)))));

    let s = u.save::<u8>(&workflow(None)).0.resume(Event::FolderMade(Err(UpdaterError::Outside(3))));
    assert!(matches!(s, Store::Done(Err(UpdaterError::Outside(3)))));
    let mut w = workflow(None);
    w.has_data_dir = false;
    assert!(matches!(u.save::<u8>(&w).0, Store::Done(Err(UpdaterError::MissingDataDir))));
}

#[test]
fn a_download_that_failed_is_removed() {
    let u = updater("1.0.0", None);
    let w = workflow(None);
    let ask = || u.download_latest::<u8>().resume(Event::DownloadableUrl(Ok("https://a.b/c".to_string())), &w);

    let d = u.download_latest::<u8>().resume(Event::DownloadableUrl(Err(UpdaterError::Outside(1))), &w);
    assert!(matches!(d, Download::Done(Err(UpdaterError::Outside(1)))));
    let d = ask();
    assert!(matches!(&d, Download::Request { url } if url == "https://a.b/c"));
    let d = d.resume(Event::Responded(Err(UpdaterError::Outside(2))), &w);
    assert!(matches!(d, Download::Done(Err(UpdaterError::Outside(2)))));

    let d = ask().resume(Event::Responded(Ok(())), &w);
    let d = d.resume(Event::FileWritten(Err(UpdaterError::Outside(3))), &w);
    assert!(matches!(&d, Download::RemoveFile { file, .. } if file == "latest_release_id.alfredworkflow"));
    let d = d.resume(Event::FileRemoved(Ok(())), &w);
    assert!(matches!(d, Download::Done(Err(UpdaterError::Outside(3)))));

    let mut bare = workflow(None);
    bare.has_cache_dir = false;
    let d = ask().resume(Event::Responded(Ok(())), &bare);
    assert!(matches!(d, Download::Done(Err(UpdaterError::MissingCacheDir))));
}

#[test]
fn errors_have_words() {
    let words = |e: Failure| e.message().map(|m| m.to_string());
    assert_eq!(words(UpdaterError::MissingDataDir).unwrap(), "missing env variable for data dir");
    assert_eq!(words(UpdaterError::MissingCacheDir).unwrap(), "missing env variable for cache dir");
    assert_eq!(words(UpdaterError::MissingUid).unwrap(), "missing env variable for uid");
    assert_eq!(words(UpdaterError::MissingDataFile).unwrap(), "missing updater data file");
    assert_eq!(words(UpdaterError::InvalidVersion("x".to_string())).unwrap(), "x");
    assert_eq!(words(UpdaterError::NotInitialized).unwrap(), "you need to use init() metheod first.");
    assert_eq!(words(UpdaterError::NoReceiver).unwrap(), "you need to use init() correctly!");
    assert_eq!(words(UpdaterError::WorkerFailed(Box::new(UpdaterError::MissingUid))), None);
    assert_eq!(words(UpdaterError::Outside(1)), None);
}
