//! Whole cycles: from the documents to the jobs and their combined outcome.

use dms_awww::config::Config;
use dms_awww::dms::{DmsSession, FileRead, Wallpaper, WallpaperChange};
use dms_awww::error::DmsAwwwError;
use dms_awww::executor::{combine, job_outcome, Executor, ExitReport, JobReport};
use dms_awww::niri::{get_monitor_outputs, needs_detection, CommandRun, DetectStep, NiriClient};

/// Builds session documents.
pub struct SessionFixture {
    wallpaper_path: Option<String>,
    per_monitor_wallpaper: Option<bool>,
    monitor_wallpapers: Vec<(String, String)>,
    is_light_mode: Option<bool>,
}

impl SessionFixture {
    pub fn new() -> Self {
        Self {
            wallpaper_path: Some("/tmp/wallpaper.jpg".to_string()),
            per_monitor_wallpaper: Some(false),
            monitor_wallpapers: Vec::new(),
            is_light_mode: Some(false),
        }
    }

    pub fn wallpaper_path(mut self, path: impl Into<String>) -> Self {
        self.wallpaper_path = Some(path.into());
        self
    }

    pub fn per_monitor(mut self, enabled: bool) -> Self {
        self.per_monitor_wallpaper = Some(enabled);
        self
    }

    pub fn monitor_wallpaper(mut self, monitor: impl Into<String>, path: impl Into<String>) -> Self {
        self.monitor_wallpapers.push((monitor.into(), path.into()));
        self
    }

    pub fn light_mode(mut self, enabled: bool) -> Self {
        self.is_light_mode = Some(enabled);
        self
    }

    pub fn build_json(&self) -> String {
        let mut json = String::from("{");

        if let Some(wp) = &self.wallpaper_path {
            json.push_str(&format!("\"wallpaperPath\":\"{}\"", wp));
        }

        if let Some(pmw) = self.per_monitor_wallpaper {
            if !json.is_empty() && json != "{" {
                json.push_str(",");
            }
            json.push_str(&format!(
                "\"perMonitorWallpaper\":{}",
                if pmw { "true" } else { "false" }
            ));
        }

        if !self.monitor_wallpapers.is_empty() {
            if !json.is_empty() && json != "{" {
                json.push_str(",");
            }
            json.push_str("\"monitorWallpapers\":{");
            let wallpapers: Vec<String> = self
                .monitor_wallpapers
                .iter()
                .map(|(m, p)| format!("\"{}\":\"{}\"", m, p))
                .collect();
            json.push_str(&wallpapers.join(","));
            json.push_str("}");
        }

        if let Some(lm) = self.is_light_mode {
            if !json.is_empty() && json != "{" {
                json.push_str(",");
            }
            json.push_str(&format!("\"isLightMode\":{}", if lm { "true" } else { "false" }));
        }

        json.push_str("}");
        json
    }

    pub fn file(&self) -> FileRead {
        FileRead::Content(self.build_json())
    }
}

/// Builds settings documents.
pub struct SettingsFixture {
    matugen_scheme: Option<String>,
}

impl SettingsFixture {
    pub fn new() -> Self {
        Self { matugen_scheme: Some("scheme-tonal-spot".to_string()) }
    }

    pub fn matugen_scheme(mut self, scheme: impl Into<String>) -> Self {
        self.matugen_scheme = Some(scheme.into());
        self
    }

    pub fn build_json(&self) -> String {
        let mut json = String::from("{");
        if let Some(ms) = &self.matugen_scheme {
            json.push_str(&format!("\"matugenScheme\":\"{}\"", ms));
        }
        json.push_str("}");
        json
    }

    pub fn file(&self) -> FileRead {
        FileRead::Content(self.build_json())
    }
}

/// Builds configuration files in either syntax.
pub struct ConfigFixture {
    format: ConfigFormat,
    content: String,
}

pub enum ConfigFormat {
    Toml,
    Yaml,
}

impl ConfigFixture {
    pub fn toml() -> Self {
        Self { format: ConfigFormat::Toml, content: String::new() }
    }

    pub fn yaml() -> Self {
        Self { format: ConfigFormat::Yaml, content: String::new() }
    }

    pub fn log_level(mut self, level: &str) -> Self {
        match self.format {
            ConfigFormat::Toml => {
                self.content.push_str(&format!("[general]\nlog_level = \"{}\"\n", level));
            }
            ConfigFormat::Yaml => {
                self.content.push_str(&format!("general:\n  log_level: {}\n", level));
            }
        }
        self
    }

    pub fn awww_enabled(mut self, enabled: bool) -> Self {
        match self.format {
            ConfigFormat::Toml => {
                self.content.push_str(&format!(
                    "[awww]\nenabled = {}\n",
                    if enabled { "true" } else { "false" }
                ));
            }
            ConfigFormat::Yaml => {
                self.content.push_str(&format!(
                    "awww:\n  enabled: {}\n",
                    if enabled { "true" } else { "false" }
                ));
            }
        }
        self
    }

    pub fn matugen_enabled(mut self, enabled: bool) -> Self {
        match self.format {
            ConfigFormat::Toml => {
                self.content.push_str(&format!(
                    "[matugen]\nenabled = {}\n",
                    if enabled { "true" } else { "false" }
                ));
            }
            ConfigFormat::Yaml => {
                self.content.push_str(&format!(
                    "matugen:\n  enabled: {}\n",
                    if enabled { "true" } else { "false" }
                ));
            }
        }
        self
    }
}

fn test_config() -> Config {
    let mut config = Config::default();
    config.dms.session_file = "/tmp/dms/session.json".to_string();
    config.dms.settings_file = "/tmp/dms/settings.json".to_string();
    config.dms.cache_dir = "/tmp/dms/cache".to_string();
    config.awww.enabled = false;
    config.matugen.enabled = false;
    config
}

fn names(list: &[&str]) -> Vec<String> {
    list.iter().map(|name| name.to_string()).collect()
}

#[test]
fn test_session_fixture_basic() {
    let json = SessionFixture::new().build_json();
    assert!(json.contains("wallpaperPath"));
    assert!(json.contains("/tmp/wallpaper.jpg"));
}

#[test]
fn test_session_fixture_per_monitor() {
    let json = SessionFixture::new()
        .per_monitor(true)
        .monitor_wallpaper("HDMI-A-1", "/tmp/wp1.jpg")
        .monitor_wallpaper("DP-1", "/tmp/wp2.jpg")
        .build_json();

    assert!(json.contains("monitorWallpapers"));
    assert!(json.contains("HDMI-A-1"));
    assert!(json.contains("DP-1"));
}

#[test]
fn test_config_fixture_toml() {
    let fixture = ConfigFixture::toml().log_level("debug").awww_enabled(false);

    assert!(fixture.content.contains("[general]"));
    assert!(fixture.content.contains("log_level"));
    assert!(fixture.content.contains("[awww]"));
}

#[test]
fn test_config_fixture_yaml() {
    let fixture = ConfigFixture::yaml().log_level("debug").matugen_enabled(true);

    assert!(fixture.content.contains("general:"));
    assert!(fixture.content.contains("log_level"));
    assert!(fixture.content.contains("matugen:"));
}

#[test]
fn test_complete_workflow_single_wallpaper() {
    let config = test_config();
    let image = "/tmp/dms/wallpaper.jpg";

    let session_file = SessionFixture::new().wallpaper_path(image).light_mode(false).file();
    let settings_file = SettingsFixture::new().matugen_scheme("scheme-tonal-spot").file();

    let session = DmsSession::new(config.clone());

    let state = session.get_current_state(&session_file);
    assert!(state.is_ok());
    let state = state.unwrap();

    assert_eq!(state.wallpapers.len(), 1);
    assert_eq!(state.wallpapers[0].path, image);
    assert!(!state.is_light_mode);
    assert_eq!(session.get_matugen_scheme(&settings_file), "scheme-tonal-spot");

    let executor = Executor::new(config, vec!["ALL".to_string()]);

    assert!(executor.check_dependencies().is_ok());
}

#[test]
fn test_complete_workflow_per_monitor() {
    let config = test_config();

    let session_file = SessionFixture::new()
        .per_monitor(true)
        .monitor_wallpaper("HDMI-A-1", "/tmp/dms/wallpaper1.jpg")
        .monitor_wallpaper("DP-1", "/tmp/dms/wallpaper2.jpg")
        .light_mode(true)
        .file();
    let settings_file = SettingsFixture::new().matugen_scheme("scheme-expressive").file();

    let session = DmsSession::new(config.clone());

    let state = session.get_current_state(&session_file);
    assert!(state.is_ok());
    let state = state.unwrap();

    assert_eq!(state.wallpapers.len(), 2);
    assert!(state.is_light_mode);
    assert_eq!(session.get_matugen_scheme(&settings_file), "scheme-expressive");

    let hdmi_found = state.wallpapers.iter().any(|w| w.monitor.as_deref() == Some("HDMI-A-1"));
    let dp_found = state.wallpapers.iter().any(|w| w.monitor.as_deref() == Some("DP-1"));
    assert!(hdmi_found, "HDMI-A-1 wallpaper not found");
    assert!(dp_found, "DP-1 wallpaper not found");

    let executor = Executor::new(config, vec!["HDMI-A-1".to_string(), "DP-1".to_string()]);
    assert!(executor.check_dependencies().is_ok());
}

#[test]
fn test_workflow_wallpaper_change_detection() {
    let config = test_config();

    let first = SessionFixture::new().wallpaper_path("/tmp/dms/wallpaper1.jpg").file();

    let mut session = DmsSession::new(config);

    let has_changed = session.has_changed(&first);
    assert!(has_changed.is_ok());
    assert!(has_changed.unwrap(), "Initial check should detect as changed");

    let has_changed = session.has_changed(&first);
    assert!(has_changed.is_ok());
    assert!(!has_changed.unwrap(), "Second check should show no change");

    let second = SessionFixture::new().wallpaper_path("/tmp/dms/wallpaper2.jpg").file();

    let has_changed = session.has_changed(&second);
    assert!(has_changed.is_ok());
    assert!(has_changed.unwrap(), "Third check should detect new wallpaper");
}

#[test]
fn test_workflow_theme_mode_detection() {
    let config = test_config();

    let dark = SessionFixture::new().wallpaper_path("/tmp/wp.jpg").light_mode(false).file();
    let session = DmsSession::new(config.clone());
    assert_eq!(session.get_theme_mode(&dark).unwrap(), "dark");

    let light = SessionFixture::new().wallpaper_path("/tmp/wp.jpg").light_mode(true).file();
    let session = DmsSession::new(config);
    assert_eq!(session.get_theme_mode(&light).unwrap(), "light");
}

#[test]
fn test_workflow_matugen_scheme_override() {
    let config = test_config();

    let settings_file = SettingsFixture::new().matugen_scheme("scheme-vibrant").file();

    let session = DmsSession::new(config);
    let scheme = session.get_matugen_scheme(&settings_file);

    assert_eq!(scheme, "scheme-vibrant");
}

#[test]
fn test_workflow_error_recovery_missing_session() {
    let config = test_config();

    let session = DmsSession::new(config);

    let result = session.get_current_state(&FileRead::Missing);
    assert!(result.is_err());
    assert!(result.unwrap_err().is_critical());
}

#[test]
fn test_workflow_error_recovery_invalid_wallpaper() {
    let config = test_config();

    let session_file = SessionFixture::new().wallpaper_path("#ff0000").file();

    let session = DmsSession::new(config);
    let result = session.get_current_state(&session_file);

    assert!(result.is_err());
    assert!(!result.unwrap_err().is_critical());
}

#[test]
fn test_workflow_with_multiple_empty_wallpapers() {
    let config = test_config();

    let image_path = "/tmp/dms/valid.jpg";
    let json = format!(
        "{{\"wallpaperPath\":\"\",\"perMonitorWallpaper\":true,\"monitorWallpapers\":{{\"HDMI-A-1\":\"#ff0000\",\"DP-1\":\"\",\"eDP-1\":\"{}\"}}}}",
        image_path
    );

    let session = DmsSession::new(config);
    let state = session.get_current_state(&FileRead::Content(json));

    assert!(state.is_ok());
    let state = state.unwrap();
    assert_eq!(state.wallpapers.len(), 1);
    assert_eq!(state.wallpapers[0].monitor, Some("eDP-1".to_string()));
    assert_eq!(state.wallpapers[0].path, image_path);
}

#[test]
fn test_complete_workflow_light_to_dark_transition() {
    let config = test_config();
    let image = "/tmp/dms/wallpaper.jpg";

    let light = SessionFixture::new().wallpaper_path(image).light_mode(true).file();
    let session = DmsSession::new(config.clone());
    assert_eq!(session.get_theme_mode(&light).unwrap(), "light");

    let dark = SessionFixture::new().wallpaper_path(image).light_mode(false).file();
    let session = DmsSession::new(config);
    assert_eq!(session.get_theme_mode(&dark).unwrap(), "dark");
}

#[test]
fn test_config_validation_with_paths() {
    let mut config = test_config();

    assert!(config.validate().is_ok());

    config.dms.session_file = "/nonexistent/path/session.json".to_string();
    let result = config.validate();
    assert!(result.is_ok());
}

#[test]
fn test_executor_with_explicit_monitors() {
    let config = test_config();

    let monitors = vec!["HDMI-A-1".to_string(), "DP-1".to_string(), "eDP-1".to_string()];
    let executor = Executor::new(config, monitors);

    assert!(executor.check_dependencies().is_ok());
    assert_eq!(executor.monitors().len(), 3);
}

#[test]
fn a_single_wallpaper_session_gives_one_wallpaper_for_every_monitor() {
    let session = DmsSession::new(test_config());
    let session_file =
        FileRead::Content(r#"{"wallpaperPath":"/tmp/a.jpg","isLightMode":false}"#.to_string());
    let settings_file =
        FileRead::Content(r#"{"matugenScheme":"scheme-tonal-spot"}"#.to_string());
    let state = session.get_current_state(&session_file).unwrap();
    assert_eq!(
        state,
        WallpaperChange {
            wallpapers: vec![Wallpaper { path: "/tmp/a.jpg".to_string(), monitor: None }],
            is_light_mode: false,
        }
    );
    assert_eq!(session.get_matugen_scheme(&settings_file), "scheme-tonal-spot");
}

#[test]
fn a_per_monitor_session_passes_over_the_empty_entry() {
    let session = DmsSession::new(test_config());
    let session_file = FileRead::Content(
        r#"{"perMonitorWallpaper":true,"monitorWallpapers":{"HDMI-A-1":"/tmp/a.jpg","DP-1":""}}"#
            .to_string(),
    );
    let state = session.get_current_state(&session_file).unwrap();
    assert_eq!(
        state.wallpapers,
        vec![Wallpaper { path: "/tmp/a.jpg".to_string(), monitor: Some("HDMI-A-1".to_string()) }]
    );
}

#[test]
fn a_failing_compositor_query_resolves_to_all() {
    let explicit: Vec<String> = vec![];
    assert!(needs_detection(&explicit, true));
    let first = CommandRun::Failed("niri: command not found".to_string());
    let detected = match NiriClient::detect_outputs(&first) {
        DetectStep::Found(list) => Some(list),
        DetectStep::Failed(_) => None,
        DetectStep::AskLegacy => NiriClient::detect_outputs_legacy(&first).ok(),
    };
    assert_eq!(detected, None);
    assert_eq!(get_monitor_outputs(explicit, true, detected).unwrap(), names(&["ALL"]));
}

#[test]
fn a_whole_cycle_with_one_failing_command() {
    let mut config = test_config();
    config.awww.enabled = true;
    config.matugen.enabled = true;
    let session = DmsSession::new(config.clone());
    let session_file = FileRead::Content(
        r#"{"perMonitorWallpaper":true,"monitorWallpapers":{"HDMI-A-1":"/tmp/a.jpg","DP-1":"/tmp/b.jpg"},"isLightMode":true}"#
            .to_string(),
    );
    let state = session.get_current_state(&session_file).unwrap();
    let executor = Executor::new(config, names(&["HDMI-A-1", "DP-1"]));
    let jobs = executor.awww_jobs(&state);
    assert_eq!(jobs.len(), 2);
    let theme = executor.matugen_job(&state, Some("/home/user")).unwrap().unwrap();
    assert_eq!(theme.path, "/tmp/a.jpg");

    let outcomes = vec![
        job_outcome("awww", &jobs[0].path, JobReport::Ended(ExitReport::Exited(0))),
        job_outcome("awww", &jobs[1].path, JobReport::MissingImage),
        job_outcome("dms matugen", &theme.path, JobReport::Ended(ExitReport::Exited(0))),
    ];
    assert!(matches!(
        combine(outcomes),
        Err(DmsAwwwError::InvalidWallpaperPath(path)) if path == "/tmp/b.jpg"
    ));
}
