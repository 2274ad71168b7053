//! The watcher of the session file: which directory is watched, which raw
//! notifications concern the file, and when a change may be signalled.
//!
//! Time is counted in milliseconds from an instant that the caller chooses.

use crate::dms::text_view;
use crate::error::{DmsAwwwError, ErrorView};
use crate::text::{same_text, texts_of};
use vstd::prelude::*;

verus! {

/// A change of the watched file.
#[derive(Debug, Clone)]
pub enum FileEvent {
    /// The file was modified.
    Modified,
    /// The file was created.
    Created,
    /// The file was deleted.
    Deleted,
    /// The watch failed; the text says why.
    Error(String),
}

/// The kind of a raw notification.
#[derive(Debug, Clone, Copy, PartialEq, Eq, Structural)]
pub enum RawEventKind {
    Any,
    Access,
    Create,
    Modify,
    Remove,
    Other,
}

/// What to do about a change of the file.
#[derive(Debug, Clone, Copy, PartialEq, Eq, Structural)]
pub enum Decision {
    /// Signal the change now.
    Emit,
    /// Wait this many milliseconds, then ask again.
    Wait(u64),
}

/// What the debouncer remembers: the time of the last signal, if there was
/// one.
#[derive(Debug, Clone, Copy, PartialEq, Eq, Structural)]
pub struct DebounceState {
    pub last_emitted: Option<u64>,
}

/// The file that is watched, the directory in which it lies, and its name in
/// that directory.
#[derive(Debug, Clone)]
pub struct FileWatcher {
    path: String,
    directory: String,
    file_name: String,
}

/// A watcher that signals a change at most once in each interval.
#[derive(Debug, Clone)]
pub struct DebouncedWatcher {
    watcher: FileWatcher,
    debounce_ms: u64,
    state: DebounceState,
}

/// The last component of a path, as `Path::file_name` gives it on Unix.
pub uninterp spec fn file_name_of(path: Seq<char>) -> Option<Seq<char>>;

/// A path without its last component, as `Path::parent` gives it on Unix.
pub uninterp spec fn parent_of(path: Seq<char>) -> Option<Seq<char>>;

/// The directory that is watched for a file: the one in which the file
/// lies, or the root where the path names none.
pub open spec fn directory_of(path: Seq<char>) -> Seq<char> {
    match parent_of(path) {
        Some(directory) => directory,
        None => "/"@,
    }
}

/// Whether one of the paths ends in the name `target`.
pub open spec fn names_target(paths: Seq<Seq<char>>, target: Seq<char>) -> bool {
    exists|i: int| 0 <= i < paths.len() && file_name_of(#[trigger] paths[i]) == Some(target)
}

/// The change that a kind of notification reports, if it reports one.
pub open spec fn event_of(kind: RawEventKind) -> Option<FileEvent> {
    match kind {
        RawEventKind::Create => Some(FileEvent::Created),
        RawEventKind::Modify => Some(FileEvent::Modified),
        RawEventKind::Remove => Some(FileEvent::Deleted),
        RawEventKind::Any => Some(FileEvent::Modified),
        RawEventKind::Access => None,
        RawEventKind::Other => None,
    }
}

/// The change that a notification reports of the file named `target`.
pub open spec fn selected(target: Seq<char>, kind: RawEventKind, paths: Seq<Seq<char>>) -> Option<
    FileEvent,
> {
    if names_target(paths, target) {
        event_of(kind)
    } else {
        None
    }
}

/// The time that has passed from `last` to `now`; none where `now` is the
/// earlier.
pub open spec fn elapsed(last: u64, now: u64) -> int {
    if now >= last {
        now - last
    } else {
        0
    }
}

/// Whether a change at `now` is signalled at once: there was no signal yet,
/// or the last one is at least an interval ago.
pub open spec fn emits(last: Option<u64>, interval: u64, now: u64) -> bool {
    match last {
        None => true,
        Some(at) => elapsed(at, now) >= interval,
    }
}

/// What is decided of a change at `now`.
pub open spec fn decide(last: Option<u64>, interval: u64, now: u64) -> Decision {
    match last {
        None => Decision::Emit,
        Some(at) => if elapsed(at, now) >= interval {
            Decision::Emit
        } else {
            Decision::Wait((interval - elapsed(at, now)) as u64)
        },
    }
}

/// The time of the last signal after a change at `now`.
pub open spec fn remembered(last: Option<u64>, interval: u64, now: u64) -> Option<u64> {
    if emits(last, interval, now) {
        Some(now)
    } else {
        last
    }
}

/// The times at which changes are signalled, where changes come at `times`
/// and each is decided as it comes: those of the changes for which the
/// decision is to signal, each decided with what is remembered after the
/// changes before it.
pub open spec fn emissions(last: Option<u64>, interval: u64, times: Seq<u64>) -> Seq<u64>
    decreases times.len(),
{
    if times.len() == 0 {
        Seq::empty()
    } else {
        let later = emissions(
            remembered(last, interval, times[0]),
            interval,
            times.drop_first(),
        );
        if decide(last, interval, times[0]) == Decision::Emit {
            seq![times[0]] + later
        } else {
            later
        }
    }
}

/// `Path::file_name` and `OsStr::to_str`: the last component of a path,
/// which depends on the path alone; `None` where the path ends in `..` or
/// names only the root.
#[verifier::external_body]
fn last_component(path: &str) -> (r: Option<String>)
    ensures
        text_view(r) == file_name_of(path@),
{
    std::path::Path::new(path).file_name().and_then(|name| name.to_str()).map(
        |name| name.to_string(),
    )
}

/// `Path::parent` and `Path::to_str`: the path without its last component,
/// which depends on the path alone; `None` where the path is empty or names
/// only the root.
#[verifier::external_body]
fn parent(path: &str) -> (r: Option<String>)
    ensures
        text_view(r) == parent_of(path@),
{
    std::path::Path::new(path).parent().and_then(|dir| dir.to_str()).map(|dir| dir.to_string())
}

/// The failure that reports a path without a file name.
pub open spec fn no_file_name() -> ErrorView {
    ErrorView::Watcher("Invalid file name"@)
}

impl DebounceState {
    /// The state before any signal.
    pub fn new() -> (r: Self)
        ensures
            r.last_emitted is None,
    {
        DebounceState { last_emitted: None }
    }

    /// Decides of a change at `now`, and remembers `now` where the change is
    /// signalled. A change that comes less than an interval after the last
    /// signal is not signalled: the answer is the time that is still to
    /// pass, after which the caller asks again.
    pub fn on_event(&mut self, interval: u64, now: u64) -> (r: Decision)
        ensures
            r == decide(old(self).last_emitted, interval, now),
            final(self).last_emitted == remembered(old(self).last_emitted, interval, now),
    {
        match self.last_emitted {
            None => {
                self.last_emitted = Some(now);
                Decision::Emit
            },
            Some(at) => {
                let passed: u64 = if now >= at {
                    now - at
                } else {
                    0
                };
                if passed >= interval {
                    self.last_emitted = Some(now);
                    Decision::Emit
                } else {
                    Decision::Wait(interval - passed)
                }
            },
        }
    }
}

impl FileWatcher {
    /// The path of the watched file.
    pub closed spec fn watched(&self) -> Seq<char> {
        self.path@
    }

    /// The directory that is watched.
    pub closed spec fn watched_directory(&self) -> Seq<char> {
        self.directory@
    }

    /// The name of the file in the watched directory.
    pub closed spec fn target(&self) -> Seq<char> {
        self.file_name@
    }

    /// A watcher for the file at `path`. The directory of the file is
    /// watched, not the file, so that a file that is replaced stays watched.
    /// A path without a file name is a failure.
    pub fn new(path: &str) -> (r: Result<Self, DmsAwwwError>)
        ensures
            match file_name_of(path@) {
                Some(name) => r matches Ok(w) && w.watched() == path@ && w.watched_directory()
                    == directory_of(path@) && w.target() == name,
                None => r matches Err(e) && e@ == no_file_name(),
            },
    {
        let directory = match parent(path) {
            Some(directory) => directory,
            None => String::from_str("/"),
        };
        match last_component(path) {
            Some(file_name) => Ok(FileWatcher { path: String::from_str(path), directory, file_name }),
            None => Err(DmsAwwwError::Watcher(String::from_str("Invalid file name"))),
        }
    }

    /// The path of the watched file.
    pub fn path(&self) -> (r: &str)
        ensures
            r@ == self.watched(),
    {
        self.path.as_str()
    }

    /// The directory that is watched.
    pub fn directory(&self) -> (r: &str)
        ensures
            r@ == self.watched_directory(),
    {
        self.directory.as_str()
    }

    /// The name of the file in the watched directory.
    pub fn file_name(&self) -> (r: &str)
        ensures
            r@ == self.target(),
    {
        self.file_name.as_str()
    }

    /// Whether one of the paths of a notification ends in the name of the
    /// watched file.
    pub fn is_target(&self, paths: &Vec<String>) -> (r: bool)
        ensures
            r == names_target(texts_of(paths@), self.target()),
    {
        let mut i: usize = 0;
        while i < paths.len()
            invariant
                i <= paths.len(),
                forall|j: int|
                    0 <= j < i ==> file_name_of(#[trigger] texts_of(paths@)[j]) != Some(
                        self.target(),
                    ),
            decreases paths.len() - i,
        {
            match last_component(paths[i].as_str()) {
                Some(name) => {
                    if same_text(name.as_str(), self.file_name.as_str()) {
                        assert(file_name_of(texts_of(paths@)[i as int]) == Some(self.target()));
                        return true;
                    }
                },
                None => {},
            }
            i += 1;
        }
        false
    }

    /// The change that a kind of notification reports, if it reports one.
    pub fn classify(kind: RawEventKind) -> (r: Option<FileEvent>)
        ensures
            r == event_of(kind),
    {
        match kind {
            RawEventKind::Create => Some(FileEvent::Created),
            RawEventKind::Modify => Some(FileEvent::Modified),
            RawEventKind::Remove => Some(FileEvent::Deleted),
            RawEventKind::Any => Some(FileEvent::Modified),
            RawEventKind::Access => None,
            RawEventKind::Other => None,
        }
    }

    /// The change that a notification reports of the watched file; `None`
    /// where the notification is about other files or reports no change.
    pub fn select(&self, kind: RawEventKind, paths: &Vec<String>) -> (r: Option<FileEvent>)
        ensures
            r == selected(self.target(), kind, texts_of(paths@)),
    {
        if self.is_target(paths) {
            FileWatcher::classify(kind)
        } else {
            None
        }
    }

    /// The outcome of a wait with a time limit. `None` stands for the limit
    /// that passed; `Some(None)` for the end of the notifications.
    pub fn next_with_timeout(received: Option<Option<FileEvent>>) -> (r: Result<
        Option<FileEvent>,
        DmsAwwwError,
    >)
        ensures
            match received {
                Some(event) => r == Ok::<Option<FileEvent>, DmsAwwwError>(event),
                None => r matches Err(e) && e@ == ErrorView::Timeout,
            },
    {
        match received {
            Some(event) => Ok(event),
            None => Err(DmsAwwwError::Timeout),
        }
    }
}

impl DebouncedWatcher {
    /// The watcher of the file.
    pub closed spec fn file(&self) -> FileWatcher {
        self.watcher
    }

    /// The least distance between two signals, in milliseconds.
    pub closed spec fn interval(&self) -> u64 {
        self.debounce_ms
    }

    /// The time of the last signal, if there was one.
    pub closed spec fn last_emitted(&self) -> Option<u64> {
        self.state.last_emitted
    }

    /// A debounced watcher for the file at `path`, which has signalled
    /// nothing yet.
    pub fn new(path: &str, debounce_ms: u64) -> (r: Result<Self, DmsAwwwError>)
        ensures
            match file_name_of(path@) {
                Some(name) => r matches Ok(w) && w.interval() == debounce_ms && w.last_emitted()
                    is None && w.file().watched() == path@ && w.file().watched_directory()
                    == directory_of(path@) && w.file().target() == name,
                None => r matches Err(e) && e@ == no_file_name(),
            },
    {
        match FileWatcher::new(path) {
            Ok(watcher) => Ok(DebouncedWatcher { watcher, debounce_ms, state: DebounceState::new() }),
            Err(e) => Err(e),
        }
    }

    /// The watcher of the file.
    pub fn watcher(&self) -> (r: &FileWatcher)
        ensures
            *r == self.file(),
    {
        &self.watcher
    }

    /// Decides of a change of the file at `now`: it is signalled at once
    /// where nothing was signalled yet or the last signal is at least an
    /// interval ago; else the answer is the time to wait before asking
    /// again.
    pub fn next(&mut self, now: u64) -> (r: Decision)
        ensures
            r == decide(old(self).last_emitted(), old(self).interval(), now),
            final(self).last_emitted() == remembered(
                old(self).last_emitted(),
                old(self).interval(),
                now,
            ),
            final(self).interval() == old(self).interval(),
            final(self).file() == old(self).file(),
    {
        self.state.on_event(self.debounce_ms, now)
    }
}

/// Every signal is at the time of one of the changes, and there are no more
/// signals than changes.
pub proof fn law_signals_at_changes(last: Option<u64>, interval: u64, times: Seq<u64>)
    ensures
        emissions(last, interval, times).len() <= times.len(),
        forall|k: int|
            0 <= k < emissions(last, interval, times).len() ==> times.contains(
                #[trigger] emissions(last, interval, times)[k],
            ),
    decreases times.len(),
{
    if times.len() > 0 {
        let rest = times.drop_first();
        let next = if emits(last, interval, times[0]) {
            Some(times[0])
        } else {
            last
        };
        law_signals_at_changes(next, interval, rest);
        let all = emissions(last, interval, times);
        assert forall|k: int| 0 <= k < all.len() implies times.contains(#[trigger] all[k]) by {
            if emits(last, interval, times[0]) {
                if k == 0 {
                    assert(times[0] == all[0]);
                } else {
                    let inner = emissions(next, interval, rest);
                    assert(all[k] == inner[k - 1]);
                    let j = choose|j: int| 0 <= j < rest.len() && rest[j] == inner[k - 1];
                    assert(times[j + 1] == all[k]);
                }
            } else {
                let inner = emissions(next, interval, rest);
                let j = choose|j: int| 0 <= j < rest.len() && rest[j] == inner[k];
                assert(times[j + 1] == all[k]);
            }
        }
    }
}

/// No two signals are closer together than the interval: between a signal
/// and the next at least an interval passes, and so it does between the
/// signal before the changes and the first among them.
pub proof fn law_signals_apart(last: Option<u64>, interval: u64, times: Seq<u64>)
    ensures
        forall|k: int|
            0 < k < emissions(last, interval, times).len() ==> elapsed(
                emissions(last, interval, times)[k - 1],
                #[trigger] emissions(last, interval, times)[k],
            ) >= interval,
        last is Some && emissions(last, interval, times).len() > 0 ==> elapsed(
            last->Some_0,
            emissions(last, interval, times)[0],
        ) >= interval,
    decreases times.len(),
{
    if times.len() > 0 {
        let rest = times.drop_first();
        let all = emissions(last, interval, times);
        if emits(last, interval, times[0]) {
            let inner = emissions(Some(times[0]), interval, rest);
            law_signals_apart(Some(times[0]), interval, rest);
            assert forall|k: int| 0 < k < all.len() implies elapsed(all[k - 1], #[trigger] all[k])
                >= interval by {
                assert(all[k] == inner[k - 1]);
                if k == 1 {
                    assert(all[0] == times[0]);
                } else {
                    assert(all[k - 1] == inner[k - 2]);
                }
            }
        } else {
            law_signals_apart(last, interval, rest);
        }
    }
}

/// A burst of changes within one interval gives exactly one signal. Where
/// nothing was signalled before, that is the first change of the burst.
pub proof fn law_burst_once(interval: u64, times: Seq<u64>)
    requires
        times.len() > 0,
        forall|i: int| 0 < i < times.len() ==> elapsed(times[0], #[trigger] times[i]) < interval,
    ensures
        emissions(None, interval, times) == seq![times[0]],
{
    lemma_quiet(Some(times[0]), interval, times.drop_first());
    assert(emissions(None, interval, times) =~= seq![times[0]]);
}

/// Changes that all come less than an interval after the last signal give
/// no signal at once, and each is told to wait until the interval is over.
pub proof fn lemma_quiet(last: Option<u64>, interval: u64, times: Seq<u64>)
    requires
        last is Some,
        forall|i: int|
            0 <= i < times.len() ==> elapsed(last->Some_0, #[trigger] times[i]) < interval,
    ensures
        emissions(last, interval, times) == Seq::<u64>::empty(),
        forall|i: int|
            0 <= i < times.len() ==> decide(last, interval, #[trigger] times[i]) == Decision::Wait(
                (interval - elapsed(last->Some_0, times[i])) as u64,
            ),
    decreases times.len(),
{
    if times.len() > 0 {
        let rest = times.drop_first();
        assert(elapsed(last->Some_0, times[0]) < interval);
        assert forall|i: int| 0 <= i < rest.len() implies elapsed(
            last->Some_0,
            #[trigger] rest[i],
        ) < interval by {
            assert(rest[i] == times[i + 1]);
        }
        lemma_quiet(last, interval, rest);
    }
}

} // verus!
