//! The failures: their severity and their two messages.

use dms_awww::daemon::{after_apply, after_watch, LoopAction, RETRY_MS, SETTLE_MS};
use dms_awww::error::DmsAwwwError;
use dms_awww::watcher::FileEvent;

fn text(s: &str) -> String {
    s.to_string()
}

fn every_kind() -> Vec<DmsAwwwError> {
    vec![
        DmsAwwwError::Config(text("bad")),
        DmsAwwwError::Io(text("denied")),
        DmsAwwwError::Json(text("eof")),
        DmsAwwwError::ConfigFile(text("syntax")),
        DmsAwwwError::CommandNotFound(text("awww")),
        DmsAwwwError::CommandFailed(text("awww"), 2),
        DmsAwwwError::CommandTerminated(text("awww"), text("9")),
        DmsAwwwError::InvalidWallpaperPath(text("/tmp/a.jpg")),
        DmsAwwwError::NiriIpc(text("refused")),
        DmsAwwwError::Watcher(text("lost")),
        DmsAwwwError::PathExpansion { path: text("~x"), reason: text("no user") },
        DmsAwwwError::MissingConfig(text("dms.session_file")),
        DmsAwwwError::InvalidConfig { key: text("log_level"), reason: text("unknown") },
        DmsAwwwError::SessionFileNotFound(text("/tmp/session.json")),
        DmsAwwwError::SettingsFileNotFound(text("/tmp/settings.json")),
        DmsAwwwError::NoMonitorsDetected,
        DmsAwwwError::PerMonitorParsingError(text("odd")),
        DmsAwwwError::NotificationError(text("inotify")),
        DmsAwwwError::Timeout,
        DmsAwwwError::MultipleErrors(vec![text("one"), text("two")]),
    ]
}

#[test]
fn test_error_recoverable() {
    let io_err = DmsAwwwError::Io("not found".to_string());
    assert!(io_err.is_recoverable());
    assert!(!io_err.is_critical());

    let config_err = DmsAwwwError::Config("test".to_string());
    assert!(!config_err.is_recoverable());
    assert!(config_err.is_critical());
}

#[test]
fn test_user_message() {
    let err = DmsAwwwError::CommandNotFound("awww".to_string());
    let msg = err.user_message();
    assert!(msg.contains("awww"));
    assert!(msg.contains("install"));
}

#[test]
fn test_error_messages_are_user_friendly() {
    let tests = vec![
        (DmsAwwwError::CommandNotFound("awww".to_string()), "install"),
        (DmsAwwwError::InvalidWallpaperPath("/nonexistent.jpg".to_string()), "wallpaper"),
        (DmsAwwwError::SessionFileNotFound("/tmp/session.json".into()), "session"),
        (DmsAwwwError::NoMonitorsDetected, "monitor"),
    ];

    for (error, keyword) in tests {
        let msg = error.user_message().to_lowercase();
        assert!(msg.contains(keyword), "Error message '{}' should contain '{}'", msg, keyword);
    }
}

#[test]
fn test_niri_error_display() {
    let err = DmsAwwwError::NiriIpc("Test error message".to_string());
    let msg = err.user_message();

    assert!(msg.contains("Niri IPC error"));
    assert!(msg.contains("Test error message"));
}

#[test]
fn test_niri_error_is_critical() {
    let no_monitors = DmsAwwwError::NoMonitorsDetected;
    assert!(no_monitors.is_critical());

    let niri_err = DmsAwwwError::NiriIpc("Connection failed".to_string());
    assert!(!niri_err.is_critical());
}

#[test]
fn test_niri_error_is_recoverable() {
    let niri_err = DmsAwwwError::NiriIpc("Connection failed".to_string());
    assert!(!niri_err.is_recoverable());

    let no_monitors = DmsAwwwError::NoMonitorsDetected;
    assert!(!no_monitors.is_recoverable());
}

#[test]
fn short_messages_are_exact() {
    let expected = vec![
        "Configuration error: bad",
        "IO error: denied",
        "JSON parsing error: eof",
        "Config file error: syntax",
        "Command not found: awww",
        "Command 'awww' failed with exit code 2",
        "Command 'awww' terminated by signal: 9",
        "Invalid wallpaper path: /tmp/a.jpg",
        "Niri IPC error: refused",
        "File watcher error: lost",
        "Failed to expand path '~x': no user",
        "Missing required configuration: dms.session_file",
        "Invalid configuration value for 'log_level': unknown",
        "DMS session file not found: /tmp/session.json",
        "DMS settings file not found: /tmp/settings.json",
        "No monitors detected",
        "Failed to parse per-monitor wallpapers: odd",
        "Notification error: inotify",
        "Timeout waiting for event",
        "Multiple errors occurred",
    ];
    let found: Vec<String> = every_kind().iter().map(|e| e.message()).collect();
    assert_eq!(found, expected);
}

#[test]
fn user_messages_are_exact() {
    let expected = vec![
        "Configuration error: bad",
        "File system error: denied",
        "Failed to parse JSON: eof",
        "Failed to load config file: syntax",
        "Required command not found: awww\nPlease install it and try again.",
        "Command 'awww' failed with exit code 2",
        "Command 'awww' was terminated by signal: 9",
        "Invalid wallpaper path: /tmp/a.jpg\nFile does not exist or is not accessible.",
        "Niri IPC error: refused",
        "File watcher error: lost",
        "Could not expand path: ~x",
        "Missing required configuration: dms.session_file\nPlease check your config file.",
        "Invalid configuration for 'log_level': unknown",
        "DMS session file not found: /tmp/session.json\nMake sure DMS is running.",
        "DMS settings file not found: /tmp/settings.json",
        "No monitors detected. Make sure your compositor is running.",
        "Failed to parse per-monitor wallpapers: odd",
        "File system notification error: inotify",
        "Operation timed out",
        "Multiple errors occurred:\none\ntwo",
    ];
    let found: Vec<String> = every_kind().iter().map(|e| e.user_message()).collect();
    assert_eq!(found, expected);
}

#[test]
fn exit_codes_are_written_in_decimal() {
    let cases = vec![
        (0, "0"),
        (7, "7"),
        (10, "10"),
        (255, "255"),
        (-1, "-1"),
        (-120, "-120"),
        (i32::MAX, "2147483647"),
        (i32::MIN, "-2147483648"),
    ];
    for (code, digits) in cases {
        let e = DmsAwwwError::CommandFailed("x".to_string(), code);
        assert_eq!(e.message(), format!("Command 'x' failed with exit code {}", digits));
    }
}

#[test]
fn severity_of_every_kind() {
    let recoverable: Vec<bool> = every_kind().iter().map(|e| e.is_recoverable()).collect();
    let critical: Vec<bool> = every_kind().iter().map(|e| e.is_critical()).collect();
    let mut expect_recoverable = vec![false; 20];
    for at in [1, 5, 9, 18] {
        expect_recoverable[at] = true;
    }
    let mut expect_critical = vec![false; 20];
    for at in [0, 4, 13, 15] {
        expect_critical[at] = true;
    }
    assert_eq!(recoverable, expect_recoverable);
    assert_eq!(critical, expect_critical);
}

#[test]
fn empty_aggregate_has_an_empty_list() {
    let e = DmsAwwwError::MultipleErrors(vec![]);
    assert_eq!(e.user_message(), "Multiple errors occurred:\n");
    let one = DmsAwwwError::MultipleErrors(vec!["only".to_string()]);
    assert_eq!(one.user_message(), "Multiple errors occurred:\nonly");
}

#[test]
fn the_loop_applies_after_a_change() {
    assert!(matches!(
        after_watch(Ok(Some(FileEvent::Modified))),
        LoopAction::Apply { settle_ms } if settle_ms == SETTLE_MS && settle_ms == 50
    ));
}

#[test]
fn the_loop_stops_when_the_notifications_end() {
    assert!(matches!(
        after_watch(Ok(None)),
        LoopAction::Stop(DmsAwwwError::Watcher(why)) if why == "Channel closed"
    ));
}

#[test]
fn the_loop_retries_after_other_failures() {
    assert!(matches!(
        after_watch(Err(DmsAwwwError::Timeout)),
        LoopAction::Retry { delay_ms } if delay_ms == RETRY_MS && delay_ms == 5000
    ));
    assert!(matches!(
        after_watch(Err(DmsAwwwError::Watcher("lost".to_string()))),
        LoopAction::Retry { .. }
    ));
    assert!(matches!(
        after_watch(Err(DmsAwwwError::NoMonitorsDetected)),
        LoopAction::Stop(DmsAwwwError::NoMonitorsDetected)
    ));
}

#[test]
fn only_critical_failures_of_a_cycle_end_the_daemon() {
    assert!(after_apply(Ok(())).is_none());
    assert!(after_apply(Err(DmsAwwwError::CommandFailed("awww".to_string(), 1))).is_none());
    assert!(after_apply(Err(DmsAwwwError::InvalidWallpaperPath("x".to_string()))).is_none());
    assert!(matches!(
        after_apply(Err(DmsAwwwError::CommandNotFound("awww".to_string()))),
        Some(DmsAwwwError::CommandNotFound(name)) if name == "awww"
    ));
    assert!(matches!(
        after_apply(Err(DmsAwwwError::SessionFileNotFound("/s".to_string()))),
        Some(DmsAwwwError::SessionFileNotFound(_))
    ));
}
