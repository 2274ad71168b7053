//! The executor: jobs, outcomes and how they combine; and the failures.

use dms_awww::config::Config;
use dms_awww::dms::{DmsSession, FileRead, Wallpaper, WallpaperChange};
use dms_awww::error::DmsAwwwError;
use dms_awww::executor::{
    combine, dependency_verdict, job_outcome, AwwwJob, Executor, ExitReport, JobReport,
};

fn test_config() -> Config {
    let mut config = Config::default();
    config.dms.session_file = "/tmp/dms/session.json".to_string();
    config.dms.settings_file = "/tmp/dms/settings.json".to_string();
    config.dms.cache_dir = "/tmp/dms/cache".to_string();
    config
}

fn content(json: &str) -> FileRead {
    FileRead::Content(json.to_string())
}

fn job(path: &str, monitor: &str) -> AwwwJob {
    AwwwJob { path: path.to_string(), monitor: monitor.to_string() }
}

fn ended(code: i32) -> JobReport {
    JobReport::Ended(ExitReport::Exited(code))
}

fn three_wallpapers() -> WallpaperChange {
    WallpaperChange {
        wallpapers: vec![
            Wallpaper::new("/tmp/a.jpg".to_string()),
            Wallpaper::new("/tmp/b.jpg".to_string()),
            Wallpaper::new("/tmp/c.jpg".to_string()),
        ],
        is_light_mode: false,
    }
}

#[test]
fn mod_test_executor_creation() {
    let config = Config::default();
    let monitors = vec!["HDMI-A-1".to_string()];
    let executor = Executor::new(config, monitors);
    assert_eq!(executor.monitors().len(), 1);
}

#[test]
fn executor_tests_test_executor_creation() {
    let config = Config::default();
    let monitors = vec!["HDMI-A-1".to_string(), "DP-1".to_string()];
    let executor = Executor::new(config, monitors);

    assert_eq!(executor.monitors(), &vec!["HDMI-A-1".to_string(), "DP-1".to_string()]);
    assert!(true);
}

#[test]
fn test_check_dependencies_missing_awww() {
    let mut config = Config::default();
    config.awww.enabled = true;
    config.matugen.enabled = false;

    let executor = Executor::new(config, vec![]);
    let result = executor.check_dependencies();

    match result {
        Ok(()) => {}
        Err(e) => assert!(matches!(e, DmsAwwwError::CommandNotFound(name) if name == "awww")),
    }
}

#[test]
fn test_check_dependencies_with_both_disabled() {
    let mut config = Config::default();
    config.awww.enabled = false;
    config.matugen.enabled = false;

    let executor = Executor::new(config, vec![]);
    let result = executor.check_dependencies();

    assert!(result.is_ok());
}

#[test]
fn test_executor_with_awww_disabled() {
    let mut config = test_config();
    config.awww.enabled = false;
    config.matugen.enabled = false;

    let session = DmsSession::new(config.clone());
    let state = session
        .get_current_state(&content(
            r#"{"wallpaperPath":"/tmp/dms/test.jpg","perMonitorWallpaper":false,"isLightMode":false}"#,
        ))
        .unwrap();

    let executor = Executor::new(config, vec![]);

    assert_eq!(state.wallpapers.len(), 1);
    assert!(executor.awww_jobs(&state).is_empty());
    assert_eq!(executor.matugen_job(&state, Some("/home/user")), Ok(None));
}

#[test]
fn test_executor_with_matugen_disabled() {
    let mut config = test_config();
    config.awww.enabled = false;
    config.matugen.enabled = false;

    let executor = Executor::new(config, vec![]);

    assert!(executor.check_dependencies().is_ok());
}

#[test]
fn test_executor_per_monitor_wallpapers() {
    let config = test_config();

    let session = DmsSession::new(config);
    let state = session
        .get_current_state(&content(
            r#"{"wallpaperPath":"/tmp/wallpaper.jpg","perMonitorWallpaper":true,"monitorWallpapers":{"HDMI-A-1":"/tmp/dms/test1.jpg","DP-1":"/tmp/dms/test2.jpg"},"isLightMode":false}"#,
        ))
        .unwrap();

    let executor =
        Executor::new(Config::default(), vec!["HDMI-A-1".to_string(), "DP-1".to_string()]);

    assert_eq!(state.wallpapers.len(), 2);
    assert_eq!(state.wallpapers[0].monitor, Some("HDMI-A-1".to_string()));
    assert_eq!(state.wallpapers[1].monitor, Some("DP-1".to_string()));
    assert_eq!(
        executor.awww_jobs(&state),
        vec![job("/tmp/dms/test1.jpg", "HDMI-A-1"), job("/tmp/dms/test2.jpg", "DP-1")]
    );
}

#[test]
fn test_wallpaper_change_structure() {
    let change = WallpaperChange {
        wallpapers: vec![
            Wallpaper::new("/path/to/wp1.jpg".to_string()),
            Wallpaper::for_monitor("/path/to/wp2.jpg".to_string(), "HDMI-A-1".to_string()),
        ],
        is_light_mode: true,
    };

    assert_eq!(change.wallpapers.len(), 2);
    assert!(change.is_light_mode);
    assert_eq!(change.wallpapers[0].monitor, None);
    assert_eq!(change.wallpapers[1].monitor, Some("HDMI-A-1".to_string()));
}

#[test]
fn test_error_display() {
    let err = DmsAwwwError::CommandNotFound("awww".to_string());
    let msg = err.user_message();
    assert!(msg.contains("awww"));
    assert!(msg.contains("install"));
}

#[test]
fn test_error_is_critical() {
    let not_found_err = DmsAwwwError::CommandNotFound("test".to_string());
    assert!(not_found_err.is_critical());

    let io_err = DmsAwwwError::Io("test".to_string());
    assert!(!io_err.is_critical());

    let session_err = DmsAwwwError::SessionFileNotFound("/tmp/test".into());
    assert!(session_err.is_critical());

    let no_monitors_err = DmsAwwwError::NoMonitorsDetected;
    assert!(no_monitors_err.is_critical());
}

#[test]
fn test_error_is_recoverable() {
    let io_err = DmsAwwwError::Io("test".to_string());
    assert!(io_err.is_recoverable());

    let cmd_err = DmsAwwwError::CommandFailed("test".to_string(), 1);
    assert!(cmd_err.is_recoverable());

    let not_found_err = DmsAwwwError::CommandNotFound("test".to_string());
    assert!(!not_found_err.is_recoverable());
}

#[test]
fn test_multiple_errors() {
    let errors = vec!["Error 1".to_string(), "Error 2".to_string(), "Error 3".to_string()];
    let err = DmsAwwwError::MultipleErrors(errors);

    let msg = err.user_message();
    assert!(msg.contains("Error 1"));
    assert!(msg.contains("Error 2"));
    assert!(msg.contains("Error 3"));
    assert_eq!(msg, "Multiple errors occurred:\nError 1\nError 2\nError 3");
}

#[test]
fn wallpapers_without_monitor_go_to_every_monitor() {
    let executor = Executor::new(Config::default(), vec!["A".to_string(), "B".to_string()]);
    let jobs = executor.awww_jobs(&three_wallpapers());
    assert_eq!(
        jobs,
        vec![
            job("/tmp/a.jpg", "A"),
            job("/tmp/a.jpg", "B"),
            job("/tmp/b.jpg", "A"),
            job("/tmp/b.jpg", "B"),
            job("/tmp/c.jpg", "A"),
            job("/tmp/c.jpg", "B"),
        ]
    );
}

#[test]
fn wallpapers_without_monitor_go_to_all_where_none_is_known() {
    let executor = Executor::new(Config::default(), vec![]);
    let change = WallpaperChange {
        wallpapers: vec![
            Wallpaper::new("/tmp/a.jpg".to_string()),
            Wallpaper::for_monitor("/tmp/b.jpg".to_string(), "DP-1".to_string()),
        ],
        is_light_mode: false,
    };
    assert_eq!(
        executor.awww_jobs(&change),
        vec![job("/tmp/a.jpg", "ALL"), job("/tmp/b.jpg", "DP-1")]
    );
}

#[test]
fn a_wallpaper_with_a_monitor_goes_to_that_monitor_only() {
    let executor = Executor::new(Config::default(), vec!["A".to_string(), "B".to_string()]);
    let change = WallpaperChange {
        wallpapers: vec![Wallpaper::for_monitor("/tmp/b.jpg".to_string(), "DP-1".to_string())],
        is_light_mode: false,
    };
    assert_eq!(executor.awww_jobs(&change), vec![job("/tmp/b.jpg", "DP-1")]);
}

#[test]
fn awww_arguments_start_with_the_extra_ones() {
    let mut config = Config::default();
    config.awww.extra_args = vec!["--fast".to_string(), "-q".to_string()];
    let executor = Executor::new(config, vec![]);
    assert_eq!(
        executor.awww_args(&job("/tmp/a.jpg", "DP-1")),
        vec!["--fast", "-q", "img", "-o", "DP-1", "/tmp/a.jpg"]
    );
    let plain = Executor::new(Config::default(), vec![]);
    assert_eq!(plain.awww_args(&job("/tmp/a.jpg", "ALL")), vec!["img", "-o", "ALL", "/tmp/a.jpg"]);
}

#[test]
fn matugen_uses_the_first_wallpaper() {
    let mut config = test_config();
    config.matugen.shell_dir = "/usr/share/shell".to_string();
    config.matugen.default_scheme = "scheme-vibrant".to_string();
    let executor = Executor::new(config, vec!["A".to_string()]);
    let mut change = three_wallpapers();
    change.is_light_mode = true;
    let found = executor.matugen_job(&change, Some("/home/user")).unwrap().unwrap();
    assert_eq!(found.path, "/tmp/a.jpg");
    assert_eq!(
        found.args,
        vec![
            "matugen",
            "queue",
            "--state-dir",
            "/tmp/dms/cache",
            "--shell-dir",
            "/usr/share/shell",
            "--config-dir",
            "/home/user/.config",
            "--kind",
            "image",
            "--value",
            "/tmp/a.jpg",
            "--mode",
            "light",
            "--matugen-type",
            "scheme-vibrant",
            "--wait",
        ]
    );
    change.is_light_mode = false;
    let dark = executor.matugen_job(&change, None).unwrap().unwrap();
    assert_eq!(dark.args[7], "~/.config");
    assert_eq!(dark.args[13], "dark");
}

#[test]
fn matugen_without_wallpapers_fails() {
    let executor = Executor::new(Config::default(), vec![]);
    let change = WallpaperChange { wallpapers: vec![], is_light_mode: false };
    assert!(matches!(
        executor.matugen_job(&change, None),
        Err(DmsAwwwError::InvalidWallpaperPath(why)) if why == "No wallpapers"
    ));
    assert!(executor.awww_jobs(&change).is_empty());
}

#[test]
fn the_end_of_a_job_decides_its_outcome() {
    assert!(job_outcome("awww", "/tmp/a.jpg", ended(0)).is_ok());
    assert!(matches!(
        job_outcome("awww", "/tmp/a.jpg", ended(3)),
        Err(DmsAwwwError::CommandFailed(name, 3)) if name == "awww"
    ));
    assert!(matches!(
        job_outcome("dms matugen", "/tmp/a.jpg", ended(-1)),
        Err(DmsAwwwError::CommandFailed(name, -1)) if name == "dms matugen"
    ));
    assert!(matches!(
        job_outcome("awww", "/tmp/a.jpg", JobReport::MissingImage),
        Err(DmsAwwwError::InvalidWallpaperPath(path)) if path == "/tmp/a.jpg"
    ));
    assert!(matches!(
        job_outcome("awww", "/tmp/a.jpg", JobReport::NotRun("no such file".to_string())),
        Err(DmsAwwwError::Io(why)) if why == "no such file"
    ));
    assert!(matches!(
        job_outcome("awww", "/tmp/a.jpg", JobReport::Ended(ExitReport::Signaled("9".to_string()))),
        Err(DmsAwwwError::CommandTerminated(name, signal)) if name == "awww" && signal == "9"
    ));
    assert!(matches!(
        job_outcome("awww", "/tmp/a.jpg", JobReport::Panicked("boom".to_string())),
        Err(DmsAwwwError::MultipleErrors(all)) if all == vec!["Task panic: boom".to_string()]
    ));
}

#[test]
fn one_failure_among_six_jobs_is_returned_as_it_is() {
    let executor = Executor::new(Config::default(), vec!["A".to_string(), "B".to_string()]);
    let jobs = executor.awww_jobs(&three_wallpapers());
    assert_eq!(jobs.len(), 6);
    let mut outcomes = Vec::new();
    for (i, one) in jobs.iter().enumerate() {
        let report = if i == 3 { ended(2) } else { ended(0) };
        outcomes.push(job_outcome("awww", &one.path, report));
    }
    outcomes.push(job_outcome("dms matugen", "/tmp/a.jpg", ended(0)));
    let result = combine(outcomes);
    assert!(matches!(result, Err(DmsAwwwError::CommandFailed(name, 2)) if name == "awww"));
}

#[test]
fn several_failures_become_one_aggregate_with_all_messages() {
    let outcomes = vec![
        job_outcome("awww", "/tmp/a.jpg", ended(0)),
        job_outcome("awww", "/tmp/a.jpg", ended(1)),
        job_outcome("awww", "/tmp/b.jpg", JobReport::MissingImage),
        job_outcome("awww", "/tmp/c.jpg", JobReport::Panicked("boom".to_string())),
        job_outcome("dms matugen", "/tmp/a.jpg", ended(-7)),
    ];
    let result = combine(outcomes);
    match result {
        Err(DmsAwwwError::MultipleErrors(all)) => assert_eq!(
            all,
            vec![
                "Command 'awww' failed with exit code 1",
                "Invalid wallpaper path: /tmp/b.jpg",
                "Task panic: boom",
                "Command 'dms matugen' failed with exit code -7",
            ]
        ),
        other => panic!("expected an aggregate, got {:?}", other),
    }
}

#[test]
fn no_failure_is_success() {
    assert!(combine(vec![]).is_ok());
    assert!(combine(vec![Ok(()), Ok(()), Ok(())]).is_ok());
}

#[test]
fn a_single_aggregate_is_returned_as_it_is() {
    let inner = DmsAwwwError::MultipleErrors(vec!["one".to_string(), "two".to_string()]);
    let result = combine(vec![Ok(()), Err(inner)]);
    assert!(matches!(
        result,
        Err(DmsAwwwError::MultipleErrors(all)) if all == vec!["one".to_string(), "two".to_string()]
    ));
    let nested = combine(vec![
        Err(DmsAwwwError::MultipleErrors(vec!["one".to_string(), "two".to_string()])),
        Err(DmsAwwwError::Timeout),
    ]);
    assert!(matches!(
        nested,
        Err(DmsAwwwError::MultipleErrors(all))
            if all == vec!["one".to_string(), "two".to_string(), "Timeout waiting for event".to_string()]
    ));
}

#[test]
fn missing_commands_are_reported_by_name() {
    assert!(dependency_verdict(true, true, true, true).is_ok());
    assert!(dependency_verdict(false, false, false, false).is_ok());
    assert!(matches!(
        dependency_verdict(true, false, true, false),
        Err(DmsAwwwError::CommandNotFound(name)) if name == "awww"
    ));
    assert!(matches!(
        dependency_verdict(true, true, true, false),
        Err(DmsAwwwError::CommandNotFound(name)) if name == "dms"
    ));
    assert!(matches!(
        dependency_verdict(false, false, true, false),
        Err(DmsAwwwError::CommandNotFound(name)) if name == "dms"
    ));
}

#[test]
fn a_command_that_is_nowhere_is_not_found() {
    let mut config = Config::default();
    config.awww.enabled = false;
    config.matugen.enabled = true;
    let executor = Executor::new(config, vec![]);
    match executor.check_dependencies() {
        Ok(()) => {}
        Err(e) => assert!(matches!(e, DmsAwwwError::CommandNotFound(name) if name == "dms")),
    }
}
