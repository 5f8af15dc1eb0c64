use svctrl::configuration::Config;
use svctrl::errors::Error;
use svctrl::service::LinkRequest;
use svctrl::service::RetryPolicy;
use svctrl::service::Service;
use svctrl::service::StopProgress;
use svctrl::service::TargetKind;

fn setup() -> Service {
    let conf = Config {
        path: None,
        svdir: String::from("/cfg/src"),
        lndir: String::from("/cfg/dst"),
    };
    let mut sv = Service::new(conf);
    sv.rename(String::from("test")).unwrap();
    sv
}

#[test]
fn test_setup() {
    setup();
}

#[test]
fn test_make_path() {
    let t = setup();

    assert_eq!(t.make_path("a/dir"), String::from("/cfg/dst/test/a/dir"));

    assert_eq!(t.make_path("a"), String::from("/cfg/dst/test/a"));

    // An absolute suffix replaces the whole path, as PathBuf::join does.
    assert_eq!(t.make_path("/t"), String::from("/t"));
}

#[test]
fn test_rename() {
    let mut t = setup();

    for x in ["test", "test1", "test2"].iter() {
        let n = x.to_string();

        t.rename(n.clone()).unwrap();
        assert_eq!(t.srcpath, format!("/cfg/src/{}", n));
        assert_eq!(t.dstpath, format!("/cfg/dst/{}", n));
    }
}

#[test]
fn test_get_paths_builds_both() {
    let conf = Config {
        path: None,
        svdir: String::from("/cfg/src"),
        lndir: String::from("/cfg/dst"),
    };
    let mut sv = Service::new(conf);
    sv.rename(String::from("db")).unwrap();
    sv.get_paths(true, true).unwrap();
    assert_eq!(sv.srcpath, "/cfg/src/db");
    assert_eq!(sv.dstpath, "/cfg/dst/db");
}

#[test]
fn test_get_paths_missing_svdir() {
    let mut sv = setup();
    match sv.get_paths(false, true) {
        Err(Error::ConfigDirMissing(dir, name)) => {
            assert_eq!(dir, "/cfg/src");
            assert_eq!(name, "test");
        }
        r => panic!("expected ConfigDirMissing, got {:?}", r),
    }
}

#[test]
fn test_get_paths_missing_lndir() {
    let mut sv = setup();
    match sv.get_paths(true, false) {
        Err(Error::ConfigDirMissing(dir, name)) => {
            assert_eq!(dir, "/cfg/dst");
            assert_eq!(name, "test");
        }
        r => panic!("expected ConfigDirMissing, got {:?}", r),
    }
}

#[test]
fn test_enable_fresh_requests_link() {
    let sv = setup();
    let req: LinkRequest = sv.enable_check(true, &TargetKind::Absent).unwrap();
    assert_eq!(req.source, "/cfg/src/test");
    assert_eq!(req.target, "/cfg/dst/test");
    // The link succeeded: the whole enable succeeds.
    assert!(sv.enable_finish(Ok(())).is_ok());
}

#[test]
fn test_enable_twice_already_enabled() {
    let sv = setup();
    // A successful enable leaves dstpath a symlink to srcpath; a second
    // enable must refuse and ask for no further link.
    let again = sv.enable_check(true, &TargetKind::Symlink(String::from("/cfg/src/test")));
    match again {
        Err(Error::AlreadyEnabled(name)) => assert_eq!(name, "test"),
        r => panic!("expected AlreadyEnabled, got {:?}", r),
    }
}

#[test]
fn test_enable_source_missing() {
    let sv = setup();
    match sv.enable_check(false, &TargetKind::Absent) {
        Err(Error::SourceMissing(name, src)) => {
            assert_eq!(name, "test");
            assert_eq!(src, "/cfg/src/test");
        }
        r => panic!("expected SourceMissing, got {:?}", r),
    }
}

#[test]
fn test_enable_blocked_by_directory() {
    let sv = setup();
    match sv.enable_check(true, &TargetKind::Directory) {
        Err(Error::IsDirectory(p)) => assert_eq!(p, "/cfg/dst/test"),
        r => panic!("expected IsDirectory, got {:?}", r),
    }
}

#[test]
fn test_enable_blocked_by_file() {
    let sv = setup();
    match sv.enable_check(true, &TargetKind::RegularFile) {
        Err(Error::IsFile(p)) => assert_eq!(p, "/cfg/dst/test"),
        r => panic!("expected IsFile, got {:?}", r),
    }
}

#[test]
fn test_enable_mismatch() {
    let sv = setup();
    let r = sv.enable_check(true, &TargetKind::Symlink(String::from("/other/place")));
    match r {
        Err(Error::Mismatch(p, name)) => {
            assert_eq!(p, "/cfg/dst/test");
            assert_eq!(name, "test");
        }
        r => panic!("expected Mismatch, got {:?}", r),
    }
}

#[test]
fn test_enable_link_failure_wrapped() {
    let sv = setup();
    let r = sv.enable_finish(Err(String::from("permission denied")));
    match r {
        Err(Error::LinkFailed(src, dst, cause)) => {
            assert_eq!(src, "/cfg/src/test");
            assert_eq!(dst, "/cfg/dst/test");
            assert_eq!(cause, "permission denied");
        }
        r => panic!("expected LinkFailed, got {:?}", r),
    }
}

#[test]
fn test_disable_never_enabled() {
    let sv = setup();
    match sv.disable_check(false) {
        Err(Error::Disabled(name)) => assert_eq!(name, "test"),
        r => panic!("expected Disabled, got {:?}", r),
    }
}

#[test]
fn test_disable_remove_failure_wrapped() {
    let sv = setup();
    assert!(sv.disable_check(true).is_ok());
    match sv.disable_finish(Err(String::from("busy"))) {
        Err(Error::RemoveFailed(p, cause)) => {
            assert_eq!(p, "/cfg/dst/test");
            assert_eq!(cause, "busy");
        }
        r => panic!("expected RemoveFailed, got {:?}", r),
    }
    assert!(sv.disable_finish(Ok(())).is_ok());
}

#[test]
fn test_signal_not_enabled() {
    let sv = setup();
    match sv.signal(false, "d") {
        Err(Error::NotEnabled(name)) => assert_eq!(name, "test"),
        r => panic!("expected NotEnabled, got {:?}", r),
    }
}

#[test]
fn test_signal_missing_pipe_reports_open_failure() {
    let sv = setup();
    // dstpath does not exist on this machine, so opening the control pipe
    // must fail, and the failure must name the pipe's path.
    match sv.signal(true, "d") {
        Err(Error::OpenFailed(p, _cause)) => {
            assert_eq!(p, "/cfg/dst/test/supervise/control");
        }
        r => panic!("expected OpenFailed, got {:?}", r),
    }
}

#[test]
fn test_stop_confirms_on_first_down_poll() {
    let sv = setup();
    let policy = RetryPolicy::default();
    assert_eq!(policy.max_attempts, 5);
    assert_eq!(policy.interval_ms, 500);
    let mut attempt = sv.stop_begin(true, &policy).unwrap();
    assert_eq!(attempt.name, "test");
    assert_eq!(attempt.stat_path, "/cfg/dst/test/supervise/stat");
    assert_eq!(attempt.attempts_left, 5);
    // The very first poll reads the down literal: confirmed at once, no
    // sleep asked for.
    let progress = attempt.observe(Ok(String::from("down\n")));
    assert!(matches!(progress, StopProgress::Confirmed));
    assert_eq!(attempt.attempts_left, 5);
}

#[test]
fn test_stop_not_enabled() {
    let sv = setup();
    let policy = RetryPolicy::default();
    match sv.stop_begin(false, &policy) {
        Err(Error::NotEnabled(name)) => assert_eq!(name, "test"),
        r => panic!("expected NotEnabled, got {:?}", r),
    }
}

#[test]
fn test_stop_exhausts_budget() {
    let sv = setup();
    let policy = RetryPolicy { max_attempts: 3, interval_ms: 0 };
    let mut attempt = sv.stop_begin(true, &policy).unwrap();
    // "down" without the newline is not the down literal.
    let p1 = attempt.observe(Ok(String::from("down")));
    assert!(matches!(p1, StopProgress::SleepAndRetry(0)));
    assert_eq!(attempt.attempts_left, 2);
    let p2 = attempt.observe(Err(String::from("No such file or directory")));
    assert!(matches!(p2, StopProgress::SleepAndRetry(0)));
    assert_eq!(attempt.attempts_left, 1);
    let p3 = attempt.observe(Ok(String::from("run\n")));
    match p3 {
        StopProgress::Failed(Error::CouldNotDisable(name)) => assert_eq!(name, "test"),
        r => panic!("expected CouldNotDisable, got {:?}", r),
    }
}

#[test]
fn test_end_to_end_enable_status_disable() {
    // The scenario of a service enabled while its supervisor never
    // attached: no supervise directory ever exists under the target.
    let sv = setup();

    // Enable: definition present, activation path absent.
    let req = sv.enable_check(true, &TargetKind::Absent).unwrap();
    assert_eq!(req.source, "/cfg/src/test");
    assert_eq!(req.target, "/cfg/dst/test");
    assert!(sv.enable_finish(Ok(())).is_ok());

    // Status: the symlink exists but supervise/pid cannot be read.
    let mut st = svctrl::service::Status::default();
    let obs = svctrl::service::StatusObservation {
        target_exists: true,
        pid_file: Err(String::from("No such file or directory")),
        mtime_secs: Err(String::from("No such file or directory")),
        now_secs: 0,
    };
    match st.status(&sv, false, obs) {
        Err(Error::ReadFailed(p, _)) => assert_eq!(p, "/cfg/dst/test/supervise/pid"),
        r => panic!("expected ReadFailed, got {:?}", r),
    }

    // Disable: the stop cannot be confirmed, so the symlink must stay.
    assert!(sv.disable_check(true).is_ok());
    let policy = RetryPolicy { max_attempts: 2, interval_ms: 0 };
    let mut attempt = sv.stop_begin(true, &policy).unwrap();
    let p1 = attempt.observe(Err(String::from("No such file or directory")));
    assert!(matches!(p1, StopProgress::SleepAndRetry(0)));
    let p2 = attempt.observe(Err(String::from("No such file or directory")));
    match p2 {
        StopProgress::Failed(Error::CouldNotDisable(name)) => assert_eq!(name, "test"),
        r => panic!("expected CouldNotDisable, got {:?}", r),
    }
    // The stop failed, so disable never asks for the symlink's removal.
}
