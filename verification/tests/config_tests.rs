//! The configuration: defaults, overrides, expansion and validation.

use dms_awww::config::{
    default_debounce_ms, default_log_level, is_log_level, log_level_named, parse_flag,
    parse_log_level, parse_output_list, Config, EnvOverrides, LogLevel,
};
use dms_awww::error::DmsAwwwError;

fn with_log_level(level: &str) -> EnvOverrides {
    let mut overrides = EnvOverrides::default();
    overrides.log_level = Some(level.to_string());
    overrides
}

#[test]
fn test_default_config() {
    let config = Config::default();
    assert_eq!(config.general.log_level, "info");
    assert_eq!(config.general.auto_detect_monitors, true);
    assert!(config.awww.enabled);
    assert!(config.matugen.enabled);
}

#[test]
fn test_validate_log_level() {
    let config = Config::default();
    config.validate().unwrap();

    let mut invalid_config = Config::default();
    invalid_config.general.log_level = "invalid".to_string();
    assert!(invalid_config.validate().is_err());
}

#[test]
fn test_config_load_default_values() {
    let config = Config::default();

    assert_eq!(config.general.log_level, "info");
    assert_eq!(config.general.auto_detect_monitors, true);
    assert!(config.awww.enabled);
    assert!(config.matugen.enabled);
}

#[test]
fn test_env_var_override_log_level() {
    let config = Config::load(None, &with_log_level("debug"));
    assert_eq!(config.general.log_level, "debug");
}

#[test]
fn test_env_var_override_boolean() {
    let mut overrides = EnvOverrides::default();
    overrides.awww_enabled = Some("false".to_string());
    overrides.matugen_enabled = Some("false".to_string());

    let config = Config::load(None, &overrides);
    assert!(!config.awww.enabled);
    assert!(!config.matugen.enabled);
}

#[test]
fn test_env_var_override_outputs() {
    let mut overrides = EnvOverrides::default();
    overrides.niri_outputs = Some("HDMI-A-1,DP-1,eDP-1".to_string());

    let config = Config::load(None, &overrides);
    assert_eq!(config.niri.outputs.len(), 3);
    assert_eq!(config.niri.outputs[0], "HDMI-A-1");
    assert_eq!(config.niri.outputs[1], "DP-1");
    assert_eq!(config.niri.outputs[2], "eDP-1");
}

#[test]
fn test_env_var_override_paths() {
    let mut overrides = EnvOverrides::default();
    overrides.session_file = Some("/custom/session.json".to_string());
    overrides.settings_file = Some("/custom/settings.json".to_string());
    overrides.cache_dir = Some("/custom/cache".to_string());

    let config = Config::load(None, &overrides);
    assert!(config.dms.session_file.contains("session.json"));
    assert!(config.dms.settings_file.contains("settings.json"));
    assert!(config.dms.cache_dir.contains("cache"));
    assert_eq!(config.dms.session_file, "/custom/session.json");
    assert_eq!(config.dms.settings_file, "/custom/settings.json");
    assert_eq!(config.dms.cache_dir, "/custom/cache");
}

#[test]
fn test_validation_with_invalid_log_level() {
    let config = Config::load(None, &with_log_level("invalid"));
    let result = config.validate();

    assert!(result.is_err());
    if let Err(e) = result {
        assert!(e.message().contains("log_level"));
        assert_eq!(
            e.message(),
            "Invalid configuration value for 'log_level': invalid log level: invalid"
        );
    }
}

#[test]
fn test_validation_with_valid_log_levels() {
    for level in ["trace", "debug", "info", "warn", "error"] {
        let config = Config::load(None, &with_log_level(level));
        assert!(config.validate().is_ok(), "Log level {} should be valid", level);
    }
}

#[test]
fn test_get_monitor_outputs_explicit() {
    let mut overrides = EnvOverrides::default();
    overrides.niri_outputs = Some("HDMI-A-1,DP-1".to_string());

    let config = Config::load(None, &overrides);
    let outputs = config.get_monitor_outputs();

    assert_eq!(outputs.len(), 2);
}

#[test]
fn test_get_monitor_outputs_empty_returns_empty_vec() {
    let config = Config::load(None, &EnvOverrides::default());
    let outputs = config.get_monitor_outputs();

    assert!(outputs.is_empty());
}

#[test]
fn test_awww_enabled() {
    let config = Config::load(None, &EnvOverrides::default());
    assert!(config.awww_enabled());

    let mut overrides = EnvOverrides::default();
    overrides.awww_enabled = Some("false".to_string());
    let config = Config::load(None, &overrides);
    assert!(!config.awww_enabled());
}

#[test]
fn test_matugen_enabled() {
    let config = Config::load(None, &EnvOverrides::default());
    assert!(config.matugen_enabled());

    let mut overrides = EnvOverrides::default();
    overrides.matugen_enabled = Some("false".to_string());
    let config = Config::load(None, &overrides);
    assert!(!config.matugen_enabled());
}

#[test]
fn test_config_session_file_path() {
    let config = Config::default();

    let path = config.session_file_path();
    assert!(path.contains("session.json"));
}

#[test]
fn test_config_settings_file_path() {
    let config = Config::default();

    let path = config.settings_file_path();
    assert!(path.contains("settings.json"));
}

#[test]
fn test_config_cache_dir_path() {
    let config = Config::default();

    let path = config.cache_dir_path();
    assert!(path.contains("DankMaterialShell"));
}

#[test]
fn defaults_are_the_documented_values() {
    let config = Config::default();
    assert_eq!(config.general.log_level, default_log_level());
    assert_eq!(config.general.log_file, "/tmp/dms_awww.log");
    assert_eq!(config.general.debounce_ms, 100);
    assert_eq!(default_debounce_ms(), 100);
    assert_eq!(config.dms.session_file, "~/.local/state/DankMaterialShell/session.json");
    assert_eq!(config.dms.settings_file, "~/.config/DankMaterialShell/settings.json");
    assert_eq!(config.dms.cache_dir, "~/.cache/DankMaterialShell");
    assert!(config.niri.outputs.is_empty());
    assert!(config.awww.extra_args.is_empty());
    assert_eq!(config.matugen.default_scheme, "scheme-tonal-spot");
    assert_eq!(config.matugen.shell_dir, "/usr/share/quickshell/dms");
    assert_eq!(config.log_file_path(), "/tmp/dms_awww.log");
}

#[test]
fn load_prefers_the_file_over_the_defaults() {
    let mut file = Config::default();
    file.general.log_level = "trace".to_string();
    file.general.debounce_ms = 200;
    file.dms.session_file = "/tmp/session.json".to_string();
    file.niri.outputs = vec!["HDMI-A-1".to_string()];
    file.awww.extra_args = vec!["--fast".to_string()];
    let mut overrides = EnvOverrides::default();
    overrides.matugen_scheme = Some("scheme-vibrant".to_string());
    overrides.shell_dir = Some("/opt/shell".to_string());
    overrides.log_file = Some("/var/log/daemon.log".to_string());
    overrides.auto_detect_monitors = Some("false".to_string());

    let config = Config::load(Some(file), &overrides);
    assert_eq!(config.general.log_level, "trace");
    assert_eq!(config.general.debounce_ms, 200);
    assert_eq!(config.dms.session_file, "/tmp/session.json");
    assert_eq!(config.niri.outputs, vec!["HDMI-A-1".to_string()]);
    assert_eq!(config.awww.extra_args, vec!["--fast".to_string()]);
    assert_eq!(config.matugen.default_scheme, "scheme-vibrant");
    assert_eq!(config.matugen.shell_dir, "/opt/shell");
    assert_eq!(config.general.log_file, "/var/log/daemon.log");
    assert!(!config.general.auto_detect_monitors);
}

#[test]
fn flags_change_only_on_true_and_false() {
    assert!(parse_flag("true", false));
    assert!(!parse_flag("false", true));
    assert!(parse_flag("yes", true));
    assert!(!parse_flag("yes", false));
    assert!(parse_flag("TRUE", true));
    assert!(!parse_flag("TRUE", false));
    assert!(!parse_flag("", false));
    assert!(!parse_flag(" true", false));
}

#[test]
fn output_lists_are_trimmed_and_lose_their_empty_pieces() {
    assert_eq!(parse_output_list("HDMI-A-1,DP-1"), vec!["HDMI-A-1", "DP-1"]);
    assert_eq!(parse_output_list(" HDMI-A-1 , ,DP-1,"), vec!["HDMI-A-1", "DP-1"]);
    assert_eq!(parse_output_list("\tA\u{a0},\u{3000}B b\n"), vec!["A", "B b"]);
    assert!(parse_output_list("").is_empty());
    assert!(parse_output_list(" , ,,").is_empty());
    assert_eq!(parse_output_list("one"), vec!["one"]);
}

#[test]
fn log_levels_are_read_in_any_case() {
    assert_eq!(parse_log_level("trace"), LogLevel::Trace);
    assert_eq!(parse_log_level("DEBUG"), LogLevel::Debug);
    assert_eq!(parse_log_level("Info"), LogLevel::Info);
    assert_eq!(parse_log_level("wArN"), LogLevel::Warn);
    assert_eq!(parse_log_level("ERROR"), LogLevel::Error);
    assert_eq!(parse_log_level("verbose"), LogLevel::Info);
    assert_eq!(log_level_named("warn"), LogLevel::Warn);
    assert_eq!(log_level_named("WARN"), LogLevel::Info);
    assert!(is_log_level("error"));
    assert!(!is_log_level("Error"));
    assert!(!is_log_level(""));
}

#[test]
fn validation_accepts_levels_in_upper_case() {
    let mut config = Config::default();
    config.general.log_level = "WARN".to_string();
    assert!(config.validate().is_ok());
    config.general.log_level = "warning".to_string();
    assert!(matches!(
        config.validate(),
        Err(DmsAwwwError::InvalidConfig { key, reason })
            if key == "log_level" && reason == "invalid log level: warning"
    ));
    assert!(Config::level_verdict("x", "info").is_ok());
    assert!(Config::level_verdict("info", "x").is_err());
}

#[test]
fn plain_paths_are_left_as_they_are() {
    assert_eq!(Config::expand_path("/tmp/test/file.txt"), "/tmp/test/file.txt");
    assert_eq!(Config::expand_path("relative/path"), "relative/path");
    assert_eq!(Config::expand_path(""), "");
}

#[test]
fn unknown_variables_leave_the_path_as_it_is() {
    let path = "$DMS_AWWW_NO_SUCH_VARIABLE_ANYWHERE/file.txt";
    assert_eq!(Config::expand_path(path), path);
}

#[test]
fn escaped_dollars_are_expanded() {
    assert_eq!(Config::expand_path("/tmp/$$"), "/tmp/$");
}

#[test]
fn expansion_touches_the_paths_only() {
    let mut config = Config::default();
    config.general.log_level = "$$".to_string();
    config.matugen.default_scheme = "$$".to_string();
    config.dms.cache_dir = "/cache/$$".to_string();
    config.expand_paths();
    assert_eq!(config.general.log_level, "$$");
    assert_eq!(config.matugen.default_scheme, "$$");
    assert_eq!(config.dms.cache_dir, "/cache/$");
    assert_eq!(config.general.log_file, "/tmp/dms_awww.log");
}
