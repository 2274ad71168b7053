//! The policy of the daemon's loop: what follows a call of the watcher, and
//! which failure of an apply cycle ends the daemon.

use crate::error::{critical, DmsAwwwError, ErrorView};
use crate::watcher::FileEvent;
use vstd::prelude::*;

verus! {

/// The time that a writer is given to finish the file, in milliseconds.
pub const SETTLE_MS: u64 = 50;

/// The time before the watcher is asked again after a failure, in
/// milliseconds.
pub const RETRY_MS: u64 = 5000;

/// What the loop does next.
#[derive(Debug)]
pub enum LoopAction {
    /// Wait this long, then read the session and apply it.
    Apply { settle_ms: u64 },
    /// Wait this long, then ask the watcher again.
    Retry { delay_ms: u64 },
    /// End the daemon with this failure.
    Stop(DmsAwwwError),
}

/// The failure that reports the end of the notifications.
pub open spec fn channel_closed() -> ErrorView {
    ErrorView::Watcher("Channel closed"@)
}

/// What follows a call of the watcher. A change is applied after a short
/// wait. The end of the notifications ends the daemon, and so does a
/// critical failure; after any other failure the watcher is asked again
/// after a delay.
pub fn after_watch(answer: Result<Option<FileEvent>, DmsAwwwError>) -> (r: LoopAction)
    ensures
        match answer {
            Ok(Some(_)) => r == (LoopAction::Apply { settle_ms: SETTLE_MS }),
            Ok(None) => r matches LoopAction::Stop(e) && e@ == channel_closed(),
            Err(failure) => if critical(failure@) {
                r == LoopAction::Stop(failure)
            } else {
                r == (LoopAction::Retry { delay_ms: RETRY_MS })
            },
        },
{
    match answer {
        Ok(Some(_)) => LoopAction::Apply { settle_ms: SETTLE_MS },
        Ok(None) => LoopAction::Stop(DmsAwwwError::Watcher(String::from_str("Channel closed"))),
        Err(failure) => {
            if failure.is_critical() {
                LoopAction::Stop(failure)
            } else {
                LoopAction::Retry { delay_ms: RETRY_MS }
            }
        },
    }
}

/// The failure of an apply cycle that ends the daemon: a critical one. Any
/// other failure is passed over, and the loop goes on.
pub fn after_apply(outcome: Result<(), DmsAwwwError>) -> (r: Option<DmsAwwwError>)
    ensures
        match outcome {
            Ok(_) => r is None,
            Err(failure) => if critical(failure@) {
                r == Some(failure)
            } else {
                r is None
            },
        },
{
    match outcome {
        Ok(_) => None,
        Err(failure) => {
            if failure.is_critical() {
                Some(failure)
            } else {
                None
            }
        },
    }
}

} // verus!
