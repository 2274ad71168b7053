//! The configuration of the daemon: its defaults, the overrides that the
//! environment may hold, the expansion of its paths and its validation.

use crate::error::{DmsAwwwError, ErrorView};
use crate::text::{
    chars_of, find_char, pieces_of, same_text, text_between, texts_of, trim_range, trimmed,
};
use vstd::prelude::*;

verus! {

/// General settings.
#[derive(Debug, Clone)]
pub struct GeneralConfig {
    /// Log level: trace, debug, info, warn or error.
    pub log_level: String,
    /// Path of the log file.
    pub log_file: String,
    /// Whether the monitors are asked of the compositor.
    pub auto_detect_monitors: bool,
    /// Least distance between two change signals, in milliseconds.
    pub debounce_ms: u64,
}

/// Where the shell keeps its files.
#[derive(Debug, Clone)]
pub struct DmsConfig {
    /// Path of the session document.
    pub session_file: String,
    /// Path of the settings document.
    pub settings_file: String,
    /// Path of the cache directory.
    pub cache_dir: String,
}

/// Settings for the compositor.
#[derive(Debug, Clone)]
pub struct NiriConfig {
    /// Outputs named by hand; where there are any, none is looked for.
    pub outputs: Vec<String>,
}

/// Settings for the tool that sets wallpapers.
#[derive(Debug, Clone)]
pub struct AwwwConfig {
    /// Whether wallpapers are set at all.
    pub enabled: bool,
    /// Arguments put before the tool's own.
    pub extra_args: Vec<String>,
}

/// Settings for the tool that derives the theme.
#[derive(Debug, Clone)]
pub struct MatugenConfig {
    /// Whether the theme is derived at all.
    pub enabled: bool,
    /// Scheme used where the settings document names none.
    pub default_scheme: String,
    /// Directory of the shell's own files.
    pub shell_dir: String,
}

/// The whole configuration.
#[derive(Debug, Clone)]
pub struct Config {
    pub general: GeneralConfig,
    pub dms: DmsConfig,
    pub niri: NiriConfig,
    pub awww: AwwwConfig,
    pub matugen: MatugenConfig,
}

/// What a `Config` holds, as sequences of characters.
pub struct ConfigView {
    pub log_level: Seq<char>,
    pub log_file: Seq<char>,
    pub auto_detect_monitors: bool,
    pub debounce_ms: u64,
    pub session_file: Seq<char>,
    pub settings_file: Seq<char>,
    pub cache_dir: Seq<char>,
    pub outputs: Seq<Seq<char>>,
    pub awww_enabled: bool,
    pub extra_args: Seq<Seq<char>>,
    pub matugen_enabled: bool,
    pub default_scheme: Seq<char>,
    pub shell_dir: Seq<char>,
}

impl View for Config {
    type V = ConfigView;

    open spec fn view(&self) -> ConfigView {
        ConfigView {
            log_level: self.general.log_level@,
            log_file: self.general.log_file@,
            auto_detect_monitors: self.general.auto_detect_monitors,
            debounce_ms: self.general.debounce_ms,
            session_file: self.dms.session_file@,
            settings_file: self.dms.settings_file@,
            cache_dir: self.dms.cache_dir@,
            outputs: texts_of(self.niri.outputs@),
            awww_enabled: self.awww.enabled,
            extra_args: texts_of(self.awww.extra_args@),
            matugen_enabled: self.matugen.enabled,
            default_scheme: self.matugen.default_scheme@,
            shell_dir: self.matugen.shell_dir@,
        }
    }
}

/// The values that the environment holds for the variables that override
/// the configuration. `None` stands for a variable that is not set.
#[derive(Debug, Clone)]
pub struct EnvOverrides {
    pub log_level: Option<String>,
    pub log_file: Option<String>,
    pub auto_detect_monitors: Option<String>,
    pub session_file: Option<String>,
    pub settings_file: Option<String>,
    pub cache_dir: Option<String>,
    pub niri_outputs: Option<String>,
    pub awww_enabled: Option<String>,
    pub matugen_enabled: Option<String>,
    pub matugen_scheme: Option<String>,
    pub shell_dir: Option<String>,
}

/// A level of logging.
#[derive(Debug, Clone, Copy, PartialEq, Eq, Structural)]
pub enum LogLevel {
    Trace,
    Debug,
    Info,
    Warn,
    Error,
}

/// The lower-case form that `str::to_lowercase` gives for a text.
pub uninterp spec fn lowercase_of(text: Seq<char>) -> Seq<char>;

/// The configuration that is used where no file says otherwise.
pub open spec fn default_view() -> ConfigView {
    ConfigView {
        log_level: "info"@,
        log_file: "/tmp/dms_awww.log"@,
        auto_detect_monitors: true,
        debounce_ms: 100,
        session_file: "~/.local/state/DankMaterialShell/session.json"@,
        settings_file: "~/.config/DankMaterialShell/settings.json"@,
        cache_dir: "~/.cache/DankMaterialShell"@,
        outputs: Seq::empty(),
        awww_enabled: true,
        extra_args: Seq::empty(),
        matugen_enabled: true,
        default_scheme: "scheme-tonal-spot"@,
        shell_dir: "/usr/share/quickshell/dms"@,
    }
}

/// The value of a variable where it is set, else `current`.
pub open spec fn text_or(value: Option<String>, current: Seq<char>) -> Seq<char> {
    match value {
        Some(text) => text@,
        None => current,
    }
}

/// What a text says of a switch: `true` and `false` set it, anything else
/// leaves it as it is.
pub open spec fn flag_of(text: Seq<char>, current: bool) -> bool {
    if text == "true"@ {
        true
    } else if text == "false"@ {
        false
    } else {
        current
    }
}

/// The value of a switch after a variable that may be set.
pub open spec fn flag_or(value: Option<String>, current: bool) -> bool {
    match value {
        Some(text) => flag_of(text@, current),
        None => current,
    }
}

/// The pieces, trimmed, that are not empty.
pub open spec fn kept_names(pieces: Seq<Seq<char>>) -> Seq<Seq<char>>
    decreases pieces.len(),
{
    if pieces.len() == 0 {
        Seq::empty()
    } else {
        let name = trimmed(pieces[0]);
        if name.len() == 0 {
            kept_names(pieces.drop_first())
        } else {
            seq![name] + kept_names(pieces.drop_first())
        }
    }
}

/// The outputs that a comma-separated list names.
pub open spec fn listed_outputs(text: Seq<char>) -> Seq<Seq<char>> {
    kept_names(pieces_of(text, ','))
}

/// The configuration after the overrides of the environment.
pub open spec fn overridden(c: ConfigView, o: EnvOverrides) -> ConfigView {
    ConfigView {
        log_level: text_or(o.log_level, c.log_level),
        log_file: text_or(o.log_file, c.log_file),
        auto_detect_monitors: flag_or(o.auto_detect_monitors, c.auto_detect_monitors),
        debounce_ms: c.debounce_ms,
        session_file: text_or(o.session_file, c.session_file),
        settings_file: text_or(o.settings_file, c.settings_file),
        cache_dir: text_or(o.cache_dir, c.cache_dir),
        outputs: match o.niri_outputs {
            Some(text) => listed_outputs(text@),
            None => c.outputs,
        },
        awww_enabled: flag_or(o.awww_enabled, c.awww_enabled),
        extra_args: c.extra_args,
        matugen_enabled: flag_or(o.matugen_enabled, c.matugen_enabled),
        default_scheme: text_or(o.matugen_scheme, c.default_scheme),
        shell_dir: text_or(o.shell_dir, c.shell_dir),
    }
}

/// A path that expansion leaves as it is: it holds no `$` and does not begin
/// with `~`.
pub open spec fn is_plain_path(path: Seq<char>) -> bool {
    !path.contains('$') && !(path.len() > 0 && path[0] == '~')
}

/// Whether `after` may be what expansion makes of `before`.
pub open spec fn may_expand_to(before: Seq<char>, after: Seq<char>) -> bool {
    is_plain_path(before) ==> after == before
}

/// Whether `after` is `before` with its five paths expanded and the rest
/// untouched.
pub open spec fn paths_expanded(before: ConfigView, after: ConfigView) -> bool {
    &&& may_expand_to(before.session_file, after.session_file)
    &&& may_expand_to(before.settings_file, after.settings_file)
    &&& may_expand_to(before.cache_dir, after.cache_dir)
    &&& may_expand_to(before.log_file, after.log_file)
    &&& may_expand_to(before.shell_dir, after.shell_dir)
    &&& after == ConfigView {
        session_file: after.session_file,
        settings_file: after.settings_file,
        cache_dir: after.cache_dir,
        log_file: after.log_file,
        shell_dir: after.shell_dir,
        ..before
    }
}

/// Whether a text in lower case names a level of logging.
pub open spec fn names_level(lowered: Seq<char>) -> bool {
    ||| lowered == "trace"@
    ||| lowered == "debug"@
    ||| lowered == "info"@
    ||| lowered == "warn"@
    ||| lowered == "error"@
}

/// The level that a text in lower case names; `Info` where it names none.
pub open spec fn level_of(lowered: Seq<char>) -> LogLevel {
    if lowered == "trace"@ {
        LogLevel::Trace
    } else if lowered == "debug"@ {
        LogLevel::Debug
    } else if lowered == "info"@ {
        LogLevel::Info
    } else if lowered == "warn"@ {
        LogLevel::Warn
    } else if lowered == "error"@ {
        LogLevel::Error
    } else {
        LogLevel::Info
    }
}

/// The failure that reports a log level which is none.
pub open spec fn invalid_level(level: Seq<char>) -> ErrorView {
    ErrorView::InvalidConfig { key: "log_level"@, reason: "invalid log level: "@ + level }
}

/// `str::to_lowercase`: the lower-case form of a text, which depends on the
/// text alone.
#[verifier::external_body]
fn lowercase(text: &str) -> (r: String)
    ensures
        r@ == lowercase_of(text@),
{
    text.to_lowercase()
}

/// `shellexpand::full`: a leading `~` becomes the home directory, and `$NAME`
/// and `${NAME}` become the values that the environment holds for them.
/// `None` stands for the failure to look a variable up. A text without `$`
/// that does not begin with `~` comes back as it is.
#[verifier::external_body]
fn expand_full(path: &str) -> (r: Option<String>)
    ensures
        match r {
            Some(text) => may_expand_to(path@, text@),
            None => !is_plain_path(path@),
        },
{
    match shellexpand::full(path) {
        Ok(expanded) => Some(expanded.into_owned()),
        Err(_) => None,
    }
}

pub fn default_log_level() -> (r: String)
    ensures
        r@ == "info"@,
{
    String::from_str("info")
}

pub fn default_log_file() -> (r: String)
    ensures
        r@ == "/tmp/dms_awww.log"@,
{
    String::from_str("/tmp/dms_awww.log")
}

pub fn default_auto_detect_monitors() -> (r: bool)
    ensures
        r,
{
    true
}

pub fn default_debounce_ms() -> (r: u64)
    ensures
        r == 100,
{
    100
}

pub fn default_session_file() -> (r: String)
    ensures
        r@ == "~/.local/state/DankMaterialShell/session.json"@,
{
    String::from_str("~/.local/state/DankMaterialShell/session.json")
}

pub fn default_settings_file() -> (r: String)
    ensures
        r@ == "~/.config/DankMaterialShell/settings.json"@,
{
    String::from_str("~/.config/DankMaterialShell/settings.json")
}

pub fn default_cache_dir() -> (r: String)
    ensures
        r@ == "~/.cache/DankMaterialShell"@,
{
    String::from_str("~/.cache/DankMaterialShell")
}

pub fn default_enabled() -> (r: bool)
    ensures
        r,
{
    true
}

pub fn default_matugen_scheme() -> (r: String)
    ensures
        r@ == "scheme-tonal-spot"@,
{
    String::from_str("scheme-tonal-spot")
}

pub fn default_shell_dir() -> (r: String)
    ensures
        r@ == "/usr/share/quickshell/dms"@,
{
    String::from_str("/usr/share/quickshell/dms")
}

impl Default for GeneralConfig {
    fn default() -> (r: Self)
        ensures
            r.log_level@ == "info"@,
            r.log_file@ == "/tmp/dms_awww.log"@,
            r.auto_detect_monitors,
            r.debounce_ms == 100,
    {
        GeneralConfig {
            log_level: default_log_level(),
            log_file: default_log_file(),
            auto_detect_monitors: default_auto_detect_monitors(),
            debounce_ms: default_debounce_ms(),
        }
    }
}

impl Default for DmsConfig {
    fn default() -> (r: Self)
        ensures
            r.session_file@ == "~/.local/state/DankMaterialShell/session.json"@,
            r.settings_file@ == "~/.config/DankMaterialShell/settings.json"@,
            r.cache_dir@ == "~/.cache/DankMaterialShell"@,
    {
        DmsConfig {
            session_file: default_session_file(),
            settings_file: default_settings_file(),
            cache_dir: default_cache_dir(),
        }
    }
}

impl Default for NiriConfig {
    fn default() -> (r: Self)
        ensures
            r.outputs@.len() == 0,
    {
        NiriConfig { outputs: Vec::new() }
    }
}

impl Default for AwwwConfig {
    fn default() -> (r: Self)
        ensures
            r.enabled,
            r.extra_args@.len() == 0,
    {
        AwwwConfig { enabled: default_enabled(), extra_args: Vec::new() }
    }
}

impl Default for MatugenConfig {
    fn default() -> (r: Self)
        ensures
            r.enabled,
            r.default_scheme@ == "scheme-tonal-spot"@,
            r.shell_dir@ == "/usr/share/quickshell/dms"@,
    {
        MatugenConfig {
            enabled: default_enabled(),
            default_scheme: default_matugen_scheme(),
            shell_dir: default_shell_dir(),
        }
    }
}

impl Default for Config {
    fn default() -> (r: Self)
        ensures
            r@ == default_view(),
    {
        let r = Config {
            general: GeneralConfig::default(),
            dms: DmsConfig::default(),
            niri: NiriConfig::default(),
            awww: AwwwConfig::default(),
            matugen: MatugenConfig::default(),
        };
        assert(texts_of(r.niri.outputs@) =~= Seq::<Seq<char>>::empty());
        assert(texts_of(r.awww.extra_args@) =~= Seq::<Seq<char>>::empty());
        r
    }
}

impl Default for EnvOverrides {
    fn default() -> (r: Self)
        ensures
            forall|c: ConfigView| #[trigger] overridden(c, r) == c,
    {
        EnvOverrides {
            log_level: None,
            log_file: None,
            auto_detect_monitors: None,
            session_file: None,
            settings_file: None,
            cache_dir: None,
            niri_outputs: None,
            awww_enabled: None,
            matugen_enabled: None,
            matugen_scheme: None,
            shell_dir: None,
        }
    }
}

/// A copy of a list of strings.
pub fn copy_strings(list: &Vec<String>) -> (r: Vec<String>)
    ensures
        texts_of(r@) == texts_of(list@),
{
    let mut out: Vec<String> = Vec::new();
    let mut i: usize = 0;
    while i < list.len()
        invariant
            i <= list.len(),
            out@.len() == i,
            forall|j: int| 0 <= j < i ==> out@[j]@ == list@[j]@,
        decreases list.len() - i,
    {
        out.push(list[i].clone());
        i += 1;
    }
    assert(texts_of(out@) =~= texts_of(list@));
    out
}

/// What a text says of a switch: `true` and `false` set it, anything else
/// leaves it as it is.
pub fn parse_flag(text: &str, current: bool) -> (r: bool)
    ensures
        r == flag_of(text@, current),
{
    if same_text(text, "true") {
        true
    } else if same_text(text, "false") {
        false
    } else {
        current
    }
}

/// The outputs that a comma-separated list names: its pieces without the
/// white space around them, in order, but for the empty ones.
pub fn parse_output_list(text: &str) -> (r: Vec<String>)
    ensures
        texts_of(r@) == listed_outputs(text@),
{
    let chars = chars_of(text);
    let n = chars.len();
    let mut out: Vec<String> = Vec::new();
    let mut from: usize = 0;
    let mut open = true;
    proof {
        assert(chars@.skip(0) =~= text@);
        assert(texts_of(out@) + listed_outputs(text@) =~= listed_outputs(text@));
    }
    while open
        invariant
            chars@ == text@,
            n == chars.len(),
            from <= n,
            open ==> listed_outputs(text@) == texts_of(out@) + kept_names(
                pieces_of(chars@.skip(from as int), ','),
            ),
            !open ==> listed_outputs(text@) == texts_of(out@),
        decreases n - from + if open { 1int } else { 0int },
    {
        let comma = find_char(&chars, from, n, ',');
        let (a, b) = trim_range(&chars, from, comma);
        proof {
            let rest = chars@.skip(from as int);
            assert(rest =~= chars@.subrange(from as int, n as int));
            assert(rest.take(comma - from) =~= chars@.subrange(from as int, comma as int));
            let pieces = pieces_of(rest, ',');
            if comma < n {
                assert(rest.skip(comma - from + 1) =~= chars@.skip(comma + 1));
                assert(pieces.drop_first() =~= pieces_of(chars@.skip(comma + 1), ','));
            } else {
                assert(pieces.drop_first() =~= Seq::<Seq<char>>::empty());
            }
            assert(pieces[0] == chars@.subrange(from as int, comma as int));
        }
        let ghost before = texts_of(out@);
        if a < b {
            out.push(text_between(text, a, b));
            proof {
                assert(texts_of(out@) =~= before + seq![trimmed(
                    chars@.subrange(from as int, comma as int),
                )]);
            }
        }
        if comma < n {
            from = comma + 1;
            proof {
                let tail = kept_names(pieces_of(chars@.skip(from as int), ','));
                assert(listed_outputs(text@) =~= texts_of(out@) + tail);
            }
        } else {
            from = n;
            open = false;
            proof {
                assert(kept_names(Seq::<Seq<char>>::empty()) =~= Seq::<Seq<char>>::empty());
                assert(listed_outputs(text@) =~= texts_of(out@));
            }
        }
    }
    out
}

/// Whether a text in lower case names a level of logging.
pub fn is_log_level(lowered: &str) -> (r: bool)
    ensures
        r == names_level(lowered@),
{
    same_text(lowered, "trace") || same_text(lowered, "debug") || same_text(lowered, "info")
        || same_text(lowered, "warn") || same_text(lowered, "error")
}

/// The level that a text in lower case names; `Info` where it names none.
pub fn log_level_named(lowered: &str) -> (r: LogLevel)
    ensures
        r == level_of(lowered@),
{
    if same_text(lowered, "trace") {
        LogLevel::Trace
    } else if same_text(lowered, "debug") {
        LogLevel::Debug
    } else if same_text(lowered, "info") {
        LogLevel::Info
    } else if same_text(lowered, "warn") {
        LogLevel::Warn
    } else if same_text(lowered, "error") {
        LogLevel::Error
    } else {
        LogLevel::Info
    }
}

/// The level that a text names, whatever its case; `Info` where it names
/// none.
pub fn parse_log_level(s: &str) -> (r: LogLevel)
    ensures
        r == level_of(lowercase_of(s@)),
{
    let lowered = lowercase(s);
    log_level_named(lowered.as_str())
}

/// What stands for a path after the attempt to expand it: the expansion
/// where there is one, else the path itself.
pub fn expansion_or_path(path: &str, expanded: Option<String>) -> (r: String)
    ensures
        r@ == match expanded {
            Some(text) => text@,
            None => path@,
        },
{
    match expanded {
        Some(text) => text,
        None => String::from_str(path),
    }
}

impl Config {
    /// The configuration in use: what the file gave, or the defaults where
    /// there was no usable file; then the overrides of the environment; then
    /// the expansion of the paths.
    pub fn load(file: Option<Config>, overrides: &EnvOverrides) -> (r: Config)
        ensures
            paths_expanded(
                overridden(
                    match file {
                        Some(c) => c@,
                        None => default_view(),
                    },
                    *overrides,
                ),
                r@,
            ),
    {
        let mut config = match file {
            Some(c) => c,
            None => Config::default(),
        };
        config.apply_env_overrides(overrides);
        config.expand_paths();
        config
    }

    /// Puts the values that the environment holds in place of the
    /// configured ones.
    pub fn apply_env_overrides(&mut self, overrides: &EnvOverrides)
        ensures
            final(self)@ == overridden(old(self)@, *overrides),
    {
        if let Some(level) = &overrides.log_level {
            self.general.log_level = level.clone();
        }
        if let Some(file) = &overrides.log_file {
            self.general.log_file = file.clone();
        }
        if let Some(value) = &overrides.auto_detect_monitors {
            self.general.auto_detect_monitors = parse_flag(
                value.as_str(),
                self.general.auto_detect_monitors,
            );
        }
        if let Some(path) = &overrides.session_file {
            self.dms.session_file = path.clone();
        }
        if let Some(path) = &overrides.settings_file {
            self.dms.settings_file = path.clone();
        }
        if let Some(path) = &overrides.cache_dir {
            self.dms.cache_dir = path.clone();
        }
        if let Some(outputs) = &overrides.niri_outputs {
            self.niri.outputs = parse_output_list(outputs.as_str());
        }
        if let Some(value) = &overrides.awww_enabled {
            self.awww.enabled = parse_flag(value.as_str(), self.awww.enabled);
        }
        if let Some(value) = &overrides.matugen_enabled {
            self.matugen.enabled = parse_flag(value.as_str(), self.matugen.enabled);
        }
        if let Some(scheme) = &overrides.matugen_scheme {
            self.matugen.default_scheme = scheme.clone();
        }
        if let Some(dir) = &overrides.shell_dir {
            self.matugen.shell_dir = dir.clone();
        }
    }

    /// Expands `~` and the variables of the environment in the five paths.
    pub fn expand_paths(&mut self)
        ensures
            paths_expanded(old(self)@, final(self)@),
    {
        self.dms.session_file = Config::expand_path(self.dms.session_file.as_str());
        self.dms.settings_file = Config::expand_path(self.dms.settings_file.as_str());
        self.dms.cache_dir = Config::expand_path(self.dms.cache_dir.as_str());
        self.general.log_file = Config::expand_path(self.general.log_file.as_str());
        self.matugen.shell_dir = Config::expand_path(self.matugen.shell_dir.as_str());
    }

    /// Expands `~` and the variables of the environment in one path. Where
    /// a variable cannot be looked up the path stays as it is.
    pub fn expand_path(path: &str) -> (r: String)
        ensures
            may_expand_to(path@, r@),
    {
        let expanded = expand_full(path);
        expansion_or_path(path, expanded)
    }

    /// Accepts the configuration where its log level is one of the five, in
    /// any case.
    pub fn validate(&self) -> (r: Result<(), DmsAwwwError>)
        ensures
            r is Ok <==> names_level(lowercase_of(self@.log_level)),
            r matches Err(e) ==> e@ == invalid_level(self@.log_level),
    {
        let lowered = lowercase(self.general.log_level.as_str());
        Config::level_verdict(self.general.log_level.as_str(), lowered.as_str())
    }

    /// Accepts a log level by its lower-case form, and reports it as it was
    /// written where it is none.
    pub fn level_verdict(level: &str, lowered: &str) -> (r: Result<(), DmsAwwwError>)
        ensures
            r is Ok <==> names_level(lowered@),
            r matches Err(e) ==> e@ == invalid_level(level@),
    {
        if is_log_level(lowered) {
            Ok(())
        } else {
            let mut reason = String::from_str("invalid log level: ");
            reason.append(level);
            Err(DmsAwwwError::InvalidConfig { key: String::from_str("log_level"), reason })
        }
    }

    /// The path of the session document.
    pub fn session_file_path(&self) -> (r: String)
        ensures
            r@ == self@.session_file,
    {
        self.dms.session_file.clone()
    }

    /// The path of the settings document.
    pub fn settings_file_path(&self) -> (r: String)
        ensures
            r@ == self@.settings_file,
    {
        self.dms.settings_file.clone()
    }

    /// The path of the cache directory.
    pub fn cache_dir_path(&self) -> (r: String)
        ensures
            r@ == self@.cache_dir,
    {
        self.dms.cache_dir.clone()
    }

    /// The path of the log file.
    pub fn log_file_path(&self) -> (r: String)
        ensures
            r@ == self@.log_file,
    {
        self.general.log_file.clone()
    }

    /// Whether wallpapers are set.
    pub fn awww_enabled(&self) -> (r: bool)
        ensures
            r == self@.awww_enabled,
    {
        self.awww.enabled
    }

    /// Whether the theme is derived.
    pub fn matugen_enabled(&self) -> (r: bool)
        ensures
            r == self@.matugen_enabled,
    {
        self.matugen.enabled
    }

    /// The outputs named by hand; none where the compositor is to be asked.
    pub fn get_monitor_outputs(&self) -> (r: Vec<String>)
        ensures
            texts_of(r@) == self@.outputs,
    {
        copy_strings(&self.niri.outputs)
    }
}

} // verus!
