//! The failures of the daemon, how severe each is, and the two texts that
//! describe one: a short message and the message shown to the user.

use crate::text::{append_decimal, decimal_of, join_with, joined, texts_of};
use vstd::prelude::*;

verus! {

/// A failure. Where the cause is a failure of the system or of a parser, the
/// variant holds the text that describes that cause.
#[derive(Debug, Clone, PartialEq, Eq)]
pub enum DmsAwwwError {
    /// The configuration is unusable.
    Config(String),
    /// A file operation failed.
    Io(String),
    /// A document is not the JSON that was expected.
    Json(String),
    /// The configuration file could not be loaded.
    ConfigFile(String),
    /// A command is not installed.
    CommandNotFound(String),
    /// A command ended with an exit code other than zero.
    CommandFailed(String, i32),
    /// A command was ended by a signal.
    CommandTerminated(String, String),
    /// A wallpaper path names no usable image.
    InvalidWallpaperPath(String),
    /// The compositor could not be queried.
    NiriIpc(String),
    /// The file watcher failed.
    Watcher(String),
    /// A path could not be expanded.
    PathExpansion { path: String, reason: String },
    /// A required configuration value is missing.
    MissingConfig(String),
    /// A configuration value is not acceptable.
    InvalidConfig { key: String, reason: String },
    /// The session file is absent.
    SessionFileNotFound(String),
    /// The settings file is absent.
    SettingsFileNotFound(String),
    /// No monitor is known and none may be looked for.
    NoMonitorsDetected,
    /// The per-monitor wallpapers could not be read.
    PerMonitorParsingError(String),
    /// The notification subsystem failed.
    NotificationError(String),
    /// No event arrived in time.
    Timeout,
    /// Several failures at once, each by its message.
    MultipleErrors(Vec<String>),
}

/// What a `DmsAwwwError` holds, as sequences of characters.
pub enum ErrorView {
    Config(Seq<char>),
    Io(Seq<char>),
    Json(Seq<char>),
    ConfigFile(Seq<char>),
    CommandNotFound(Seq<char>),
    CommandFailed(Seq<char>, int),
    CommandTerminated(Seq<char>, Seq<char>),
    InvalidWallpaperPath(Seq<char>),
    NiriIpc(Seq<char>),
    Watcher(Seq<char>),
    PathExpansion { path: Seq<char>, reason: Seq<char> },
    MissingConfig(Seq<char>),
    InvalidConfig { key: Seq<char>, reason: Seq<char> },
    SessionFileNotFound(Seq<char>),
    SettingsFileNotFound(Seq<char>),
    NoMonitorsDetected,
    PerMonitorParsingError(Seq<char>),
    NotificationError(Seq<char>),
    Timeout,
    MultipleErrors(Seq<Seq<char>>),
}

impl View for DmsAwwwError {
    type V = ErrorView;

    open spec fn view(&self) -> ErrorView {
        match self {
            DmsAwwwError::Config(m) => ErrorView::Config(m@),
            DmsAwwwError::Io(m) => ErrorView::Io(m@),
            DmsAwwwError::Json(m) => ErrorView::Json(m@),
            DmsAwwwError::ConfigFile(m) => ErrorView::ConfigFile(m@),
            DmsAwwwError::CommandNotFound(c) => ErrorView::CommandNotFound(c@),
            DmsAwwwError::CommandFailed(c, code) => ErrorView::CommandFailed(c@, *code as int),
            DmsAwwwError::CommandTerminated(c, s) => ErrorView::CommandTerminated(c@, s@),
            DmsAwwwError::InvalidWallpaperPath(p) => ErrorView::InvalidWallpaperPath(p@),
            DmsAwwwError::NiriIpc(m) => ErrorView::NiriIpc(m@),
            DmsAwwwError::Watcher(m) => ErrorView::Watcher(m@),
            DmsAwwwError::PathExpansion { path, reason } => ErrorView::PathExpansion {
                path: path@,
                reason: reason@,
            },
            DmsAwwwError::MissingConfig(k) => ErrorView::MissingConfig(k@),
            DmsAwwwError::InvalidConfig { key, reason } => ErrorView::InvalidConfig {
                key: key@,
                reason: reason@,
            },
            DmsAwwwError::SessionFileNotFound(p) => ErrorView::SessionFileNotFound(p@),
            DmsAwwwError::SettingsFileNotFound(p) => ErrorView::SettingsFileNotFound(p@),
            DmsAwwwError::NoMonitorsDetected => ErrorView::NoMonitorsDetected,
            DmsAwwwError::PerMonitorParsingError(m) => ErrorView::PerMonitorParsingError(m@),
            DmsAwwwError::NotificationError(m) => ErrorView::NotificationError(m@),
            DmsAwwwError::Timeout => ErrorView::Timeout,
            DmsAwwwError::MultipleErrors(all) => ErrorView::MultipleErrors(texts_of(all@)),
        }
    }
}

/// Whether the daemon goes on after such a failure and tries again.
pub open spec fn recoverable(e: ErrorView) -> bool {
    e is Io || e is CommandFailed || e is Timeout || e is Watcher
}

/// Whether such a failure ends the daemon.
pub open spec fn critical(e: ErrorView) -> bool {
    e is Config || e is CommandNotFound || e is SessionFileNotFound || e is NoMonitorsDetected
}

/// The short message of a failure.
pub open spec fn message_of(e: ErrorView) -> Seq<char> {
    match e {
        ErrorView::Config(m) => "Configuration error: "@ + m,
        ErrorView::Io(m) => "IO error: "@ + m,
        ErrorView::Json(m) => "JSON parsing error: "@ + m,
        ErrorView::ConfigFile(m) => "Config file error: "@ + m,
        ErrorView::CommandNotFound(c) => "Command not found: "@ + c,
        ErrorView::CommandFailed(c, code) => "Command '"@ + c + "' failed with exit code "@
            + decimal_of(code),
        ErrorView::CommandTerminated(c, s) => "Command '"@ + c + "' terminated by signal: "@ + s,
        ErrorView::InvalidWallpaperPath(p) => "Invalid wallpaper path: "@ + p,
        ErrorView::NiriIpc(m) => "Niri IPC error: "@ + m,
        ErrorView::Watcher(m) => "File watcher error: "@ + m,
        ErrorView::PathExpansion { path, reason } => "Failed to expand path '"@ + path + "': "@
            + reason,
        ErrorView::MissingConfig(k) => "Missing required configuration: "@ + k,
        ErrorView::InvalidConfig { key, reason } => "Invalid configuration value for '"@ + key
            + "': "@ + reason,
        ErrorView::SessionFileNotFound(p) => "DMS session file not found: "@ + p,
        ErrorView::SettingsFileNotFound(p) => "DMS settings file not found: "@ + p,
        ErrorView::NoMonitorsDetected => "No monitors detected"@,
        ErrorView::PerMonitorParsingError(m) => "Failed to parse per-monitor wallpapers: "@ + m,
        ErrorView::NotificationError(m) => "Notification error: "@ + m,
        ErrorView::Timeout => "Timeout waiting for event"@,
        ErrorView::MultipleErrors(_) => "Multiple errors occurred"@,
    }
}

/// The message of a failure that is shown to the user.
pub open spec fn user_message_of(e: ErrorView) -> Seq<char> {
    match e {
        ErrorView::Config(m) => "Configuration error: "@ + m,
        ErrorView::Io(m) => "File system error: "@ + m,
        ErrorView::Json(m) => "Failed to parse JSON: "@ + m,
        ErrorView::ConfigFile(m) => "Failed to load config file: "@ + m,
        ErrorView::CommandNotFound(c) => "Required command not found: "@ + c
            + "\nPlease install it and try again."@,
        ErrorView::CommandFailed(c, code) => "Command '"@ + c + "' failed with exit code "@
            + decimal_of(code),
        ErrorView::CommandTerminated(c, s) => "Command '"@ + c + "' was terminated by signal: "@
            + s,
        ErrorView::InvalidWallpaperPath(p) => "Invalid wallpaper path: "@ + p
            + "\nFile does not exist or is not accessible."@,
        ErrorView::NiriIpc(m) => "Niri IPC error: "@ + m,
        ErrorView::Watcher(m) => "File watcher error: "@ + m,
        ErrorView::PathExpansion { path, reason } => "Could not expand path: "@ + path,
        ErrorView::MissingConfig(k) => "Missing required configuration: "@ + k
            + "\nPlease check your config file."@,
        ErrorView::InvalidConfig { key, reason } => "Invalid configuration for '"@ + key + "': "@
            + reason,
        ErrorView::SessionFileNotFound(p) => "DMS session file not found: "@ + p
            + "\nMake sure DMS is running."@,
        ErrorView::SettingsFileNotFound(p) => "DMS settings file not found: "@ + p,
        ErrorView::NoMonitorsDetected =>
            "No monitors detected. Make sure your compositor is running."@,
        ErrorView::PerMonitorParsingError(m) => "Failed to parse per-monitor wallpapers: "@ + m,
        ErrorView::NotificationError(m) => "File system notification error: "@ + m,
        ErrorView::Timeout => "Operation timed out"@,
        ErrorView::MultipleErrors(all) => "Multiple errors occurred:\n"@ + joined(all, "\n"@),
    }
}

/// Whether `part` stands somewhere in `text`.
pub open spec fn holds(text: Seq<char>, part: Seq<char>) -> bool {
    exists|at: int|
        0 <= at && at + part.len() <= text.len() && #[trigger] text.subrange(
            at,
            at + part.len(),
        ) == part
}

/// The command, the file or the setting that a failure is about, where it
/// is about one.
pub open spec fn resource_of(e: ErrorView) -> Option<Seq<char>> {
    match e {
        ErrorView::CommandNotFound(command) => Some(command),
        ErrorView::CommandFailed(command, _) => Some(command),
        ErrorView::CommandTerminated(command, _) => Some(command),
        ErrorView::InvalidWallpaperPath(path) => Some(path),
        ErrorView::PathExpansion { path, reason } => Some(path),
        ErrorView::MissingConfig(key) => Some(key),
        ErrorView::InvalidConfig { key, reason } => Some(key),
        ErrorView::SessionFileNotFound(path) => Some(path),
        ErrorView::SettingsFileNotFound(path) => Some(path),
        _ => None,
    }
}

/// A text that is put together from a head, a part and a tail holds the
/// part.
proof fn lemma_holds_part(head: Seq<char>, part: Seq<char>, tail: Seq<char>)
    ensures
        holds(head + part + tail, part),
        holds(head + part, part),
{
    let whole = head + part + tail;
    let from = head.len() as int;
    let to = from + part.len();
    assert(whole.subrange(from, to) =~= part);
    assert((head + part).subrange(from, to) =~= part);
}

/// The message that is shown to the user names the command, the file or the
/// setting that the failure is about.
pub proof fn law_user_message_names_resource(e: ErrorView)
    ensures
        resource_of(e) matches Some(name) ==> holds(user_message_of(e), name),
{
    match e {
        ErrorView::CommandNotFound(command) => {
            lemma_holds_part(
                "Required command not found: "@,
                command,
                "\nPlease install it and try again."@,
            );
        },
        ErrorView::CommandFailed(command, code) => {
            lemma_holds_part(
                "Command '"@,
                command,
                "' failed with exit code "@ + decimal_of(code),
            );
            assert("Command '"@ + command + ("' failed with exit code "@ + decimal_of(code))
                =~= user_message_of(e));
        },
        ErrorView::CommandTerminated(command, signal) => {
            lemma_holds_part("Command '"@, command, "' was terminated by signal: "@ + signal);
            assert("Command '"@ + command + ("' was terminated by signal: "@ + signal)
                =~= user_message_of(e));
        },
        ErrorView::InvalidWallpaperPath(path) => {
            lemma_holds_part(
                "Invalid wallpaper path: "@,
                path,
                "\nFile does not exist or is not accessible."@,
            );
        },
        ErrorView::PathExpansion { path, reason } => {
            lemma_holds_part("Could not expand path: "@, path, Seq::empty());
        },
        ErrorView::MissingConfig(key) => {
            lemma_holds_part(
                "Missing required configuration: "@,
                key,
                "\nPlease check your config file."@,
            );
        },
        ErrorView::InvalidConfig { key, reason } => {
            lemma_holds_part("Invalid configuration for '"@, key, "': "@ + reason);
            assert("Invalid configuration for '"@ + key + ("': "@ + reason) =~= user_message_of(e));
        },
        ErrorView::SessionFileNotFound(path) => {
            lemma_holds_part(
                "DMS session file not found: "@,
                path,
                "\nMake sure DMS is running."@,
            );
        },
        ErrorView::SettingsFileNotFound(path) => {
            lemma_holds_part("DMS settings file not found: "@, path, Seq::empty());
        },
        _ => {},
    }
}

/// `head` followed by `tail`.
fn two(head: &str, tail: &str) -> (r: String)
    ensures
        r@ == head@ + tail@,
{
    let mut out = String::from_str(head);
    out.append(tail);
    out
}

/// `head`, `middle` and `tail` one after another.
fn three(head: &str, middle: &str, tail: &str) -> (r: String)
    ensures
        r@ == head@ + middle@ + tail@,
{
    let mut out = String::from_str(head);
    out.append(middle);
    out.append(tail);
    out
}

/// Four texts one after another.
fn four(a: &str, b: &str, c: &str, d: &str) -> (r: String)
    ensures
        r@ == a@ + b@ + c@ + d@,
{
    let mut out = String::from_str(a);
    out.append(b);
    out.append(c);
    out.append(d);
    out
}

/// The text that reports a command and its exit code.
fn exit_code_text(command: &str, code: i32) -> (r: String)
    ensures
        r@ == "Command '"@ + command@ + "' failed with exit code "@ + decimal_of(code as int),
{
    let mut out = three("Command '", command, "' failed with exit code ");
    append_decimal(&mut out, code);
    out
}

impl DmsAwwwError {
    /// Whether the daemon goes on after this failure and tries again.
    pub fn is_recoverable(&self) -> (r: bool)
        ensures
            r == recoverable(self@),
    {
        match self {
            DmsAwwwError::Io(_) => true,
            DmsAwwwError::CommandFailed(_, _) => true,
            DmsAwwwError::Timeout => true,
            DmsAwwwError::Watcher(_) => true,
            _ => false,
        }
    }

    /// Whether this failure ends the daemon.
    pub fn is_critical(&self) -> (r: bool)
        ensures
            r == critical(self@),
    {
        match self {
            DmsAwwwError::Config(_) => true,
            DmsAwwwError::CommandNotFound(_) => true,
            DmsAwwwError::SessionFileNotFound(_) => true,
            DmsAwwwError::NoMonitorsDetected => true,
            _ => false,
        }
    }

    /// The short message of this failure.
    pub fn message(&self) -> (r: String)
        ensures
            r@ == message_of(self@),
    {
        match self {
            DmsAwwwError::Config(m) => two("Configuration error: ", m.as_str()),
            DmsAwwwError::Io(m) => two("IO error: ", m.as_str()),
            DmsAwwwError::Json(m) => two("JSON parsing error: ", m.as_str()),
            DmsAwwwError::ConfigFile(m) => two("Config file error: ", m.as_str()),
            DmsAwwwError::CommandNotFound(c) => two("Command not found: ", c.as_str()),
            DmsAwwwError::CommandFailed(c, code) => exit_code_text(c.as_str(), *code),
            DmsAwwwError::CommandTerminated(c, s) => four(
                "Command '",
                c.as_str(),
                "' terminated by signal: ",
                s.as_str(),
            ),
            DmsAwwwError::InvalidWallpaperPath(p) => two("Invalid wallpaper path: ", p.as_str()),
            DmsAwwwError::NiriIpc(m) => two("Niri IPC error: ", m.as_str()),
            DmsAwwwError::Watcher(m) => two("File watcher error: ", m.as_str()),
            DmsAwwwError::PathExpansion { path, reason } => four(
                "Failed to expand path '",
                path.as_str(),
                "': ",
                reason.as_str(),
            ),
            DmsAwwwError::MissingConfig(k) => two("Missing required configuration: ", k.as_str()),
            DmsAwwwError::InvalidConfig { key, reason } => four(
                "Invalid configuration value for '",
                key.as_str(),
                "': ",
                reason.as_str(),
            ),
            DmsAwwwError::SessionFileNotFound(p) => two("DMS session file not found: ", p.as_str()),
            DmsAwwwError::SettingsFileNotFound(p) => two(
                "DMS settings file not found: ",
                p.as_str(),
            ),
            DmsAwwwError::NoMonitorsDetected => String::from_str("No monitors detected"),
            DmsAwwwError::PerMonitorParsingError(m) => two(
                "Failed to parse per-monitor wallpapers: ",
                m.as_str(),
            ),
            DmsAwwwError::NotificationError(m) => two("Notification error: ", m.as_str()),
            DmsAwwwError::Timeout => String::from_str("Timeout waiting for event"),
            DmsAwwwError::MultipleErrors(_) => String::from_str("Multiple errors occurred"),
        }
    }

    /// The message of this failure that is shown to the user. It names the
    /// command or the file that the failure is about.
    pub fn user_message(&self) -> (r: String)
        ensures
            r@ == user_message_of(self@),
    {
        match self {
            DmsAwwwError::Config(m) => two("Configuration error: ", m.as_str()),
            DmsAwwwError::Io(m) => two("File system error: ", m.as_str()),
            DmsAwwwError::Json(m) => two("Failed to parse JSON: ", m.as_str()),
            DmsAwwwError::ConfigFile(m) => two("Failed to load config file: ", m.as_str()),
            DmsAwwwError::CommandNotFound(c) => three(
                "Required command not found: ",
                c.as_str(),
                "\nPlease install it and try again.",
            ),
            DmsAwwwError::CommandFailed(c, code) => exit_code_text(c.as_str(), *code),
            DmsAwwwError::CommandTerminated(c, s) => four(
                "Command '",
                c.as_str(),
                "' was terminated by signal: ",
                s.as_str(),
            ),
            DmsAwwwError::InvalidWallpaperPath(p) => three(
                "Invalid wallpaper path: ",
                p.as_str(),
                "\nFile does not exist or is not accessible.",
            ),
            DmsAwwwError::NiriIpc(m) => two("Niri IPC error: ", m.as_str()),
            DmsAwwwError::Watcher(m) => two("File watcher error: ", m.as_str()),
            DmsAwwwError::PathExpansion { path, .. } => two(
                "Could not expand path: ",
                path.as_str(),
            ),
            DmsAwwwError::MissingConfig(k) => three(
                "Missing required configuration: ",
                k.as_str(),
                "\nPlease check your config file.",
            ),
            DmsAwwwError::InvalidConfig { key, reason } => four(
                "Invalid configuration for '",
                key.as_str(),
                "': ",
                reason.as_str(),
            ),
            DmsAwwwError::SessionFileNotFound(p) => three(
                "DMS session file not found: ",
                p.as_str(),
                "\nMake sure DMS is running.",
            ),
            DmsAwwwError::SettingsFileNotFound(p) => two(
                "DMS settings file not found: ",
                p.as_str(),
            ),
            DmsAwwwError::NoMonitorsDetected => String::from_str(
                "No monitors detected. Make sure your compositor is running.",
            ),
            DmsAwwwError::PerMonitorParsingError(m) => two(
                "Failed to parse per-monitor wallpapers: ",
                m.as_str(),
            ),
            DmsAwwwError::NotificationError(m) => two(
                "File system notification error: ",
                m.as_str(),
            ),
            DmsAwwwError::Timeout => String::from_str("Operation timed out"),
            DmsAwwwError::MultipleErrors(all) => {
                let lines = join_with(all, "\n");
                two("Multiple errors occurred:\n", lines.as_str())
            },
        }
    }
}

} // verus!
