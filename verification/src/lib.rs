//! Coordination core of a wallpaper daemon: it decides what a session asks
//! for, which monitors are addressed, when a change signal may be emitted and
//! how the outcomes of the external tools combine.

pub mod config;
pub mod daemon;
pub mod dms;
pub mod error;
pub mod executor;
pub mod json;
pub mod niri;
pub mod text;
pub mod watcher;
