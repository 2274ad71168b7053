//! The session of the shell: what its documents hold, which wallpapers they
//! ask for, and whether that differs from what was seen before.

use crate::config::{Config, ConfigView};
use crate::error::{DmsAwwwError, ErrorView};
use crate::json::{
    document_in, find_member, member_of, optional_flag, optional_flag_in, optional_text,
    optional_text_in, parse_text, unexpected, JsonMember, JsonValue,
};
use crate::text::{same_text, texts_of};
use vstd::prelude::*;

verus! {

/// The wallpaper of one monitor, as the session document names it.
#[derive(Debug, Clone)]
pub struct MonitorWallpaper {
    pub monitor: String,
    pub path: String,
}

/// The wallpapers of the monitors, by monitor, in the order in which the
/// monitors were first named. No monitor stands in it twice.
#[derive(Debug)]
pub struct MonitorWallpapers {
    entries: Vec<MonitorWallpaper>,
}

/// The pairs of monitor and path that a list of entries holds.
pub open spec fn pairs_of(entries: Seq<MonitorWallpaper>) -> Seq<(Seq<char>, Seq<char>)> {
    Seq::new(entries.len(), |i: int| (entries[i].monitor@, entries[i].path@))
}

/// Whether no monitor stands twice in a list of pairs.
pub open spec fn monitors_distinct(pairs: Seq<(Seq<char>, Seq<char>)>) -> bool {
    forall|i: int, j: int| 0 <= i < j < pairs.len() ==> pairs[i].0 != pairs[j].0
}

/// The place of a monitor in a list of pairs, or the length of the list
/// where the monitor is not in it.
pub open spec fn place_of(pairs: Seq<(Seq<char>, Seq<char>)>, monitor: Seq<char>) -> int
    decreases pairs.len(),
{
    if pairs.len() == 0 {
        0
    } else if pairs[0].0 == monitor {
        0
    } else {
        1 + place_of(pairs.drop_first(), monitor)
    }
}

/// The path that a list of pairs holds for a monitor.
pub open spec fn path_of(pairs: Seq<(Seq<char>, Seq<char>)>, monitor: Seq<char>) -> Option<
    Seq<char>,
> {
    let at = place_of(pairs, monitor);
    if 0 <= at < pairs.len() {
        Some(pairs[at].1)
    } else {
        None
    }
}

/// A list of pairs after a monitor was given a path: the path takes the
/// place of the one that the monitor had, or the pair is put at the end.
pub open spec fn put(
    pairs: Seq<(Seq<char>, Seq<char>)>,
    monitor: Seq<char>,
    path: Seq<char>,
) -> Seq<(Seq<char>, Seq<char>)> {
    let at = place_of(pairs, monitor);
    if 0 <= at < pairs.len() {
        pairs.update(at, (monitor, path))
    } else {
        pairs.push((monitor, path))
    }
}

/// `place_of` lies within the list, names the monitor where it is inside,
/// and no pair before it does.
pub proof fn lemma_place_of(pairs: Seq<(Seq<char>, Seq<char>)>, monitor: Seq<char>)
    ensures
        0 <= place_of(pairs, monitor) <= pairs.len(),
        place_of(pairs, monitor) < pairs.len() ==> pairs[place_of(pairs, monitor)].0 == monitor,
        forall|j: int| 0 <= j < place_of(pairs, monitor) ==> pairs[j].0 != monitor,
    decreases pairs.len(),
{
    if pairs.len() > 0 && pairs[0].0 != monitor {
        lemma_place_of(pairs.drop_first(), monitor);
        assert forall|j: int| 0 <= j < place_of(pairs, monitor) implies pairs[j].0 != monitor by {
            if j > 0 {
                assert(pairs[j] == pairs.drop_first()[j - 1]);
            }
        }
    }
}

/// An index with the three properties of `lemma_place_of` is `place_of`.
pub proof fn lemma_place_of_unique(pairs: Seq<(Seq<char>, Seq<char>)>, monitor: Seq<char>, k: int)
    requires
        0 <= k <= pairs.len(),
        k < pairs.len() ==> pairs[k].0 == monitor,
        forall|j: int| 0 <= j < k ==> pairs[j].0 != monitor,
    ensures
        place_of(pairs, monitor) == k,
    decreases pairs.len(),
{
    if pairs.len() > 0 && k > 0 {
        let rest = pairs.drop_first();
        assert(pairs[0].0 != monitor);
        assert(k - 1 < rest.len() ==> rest[k - 1].0 == monitor);
        assert forall|j: int| 0 <= j < k - 1 implies rest[j].0 != monitor by {
            assert(rest[j] == pairs[j + 1]);
        }
        lemma_place_of_unique(rest, monitor, k - 1);
    }
}

/// Giving a monitor a path keeps the monitors distinct.
pub proof fn lemma_put_distinct(
    pairs: Seq<(Seq<char>, Seq<char>)>,
    monitor: Seq<char>,
    path: Seq<char>,
)
    requires
        monitors_distinct(pairs),
    ensures
        monitors_distinct(put(pairs, monitor, path)),
        path_of(put(pairs, monitor, path), monitor) == Some(path),
{
    lemma_place_of(pairs, monitor);
    let after = put(pairs, monitor, path);
    let at = place_of(pairs, monitor);
    assert forall|j: int| 0 <= j < at implies after[j].0 != monitor by {
        assert(after[j] == pairs[j]);
    }
    lemma_place_of_unique(after, monitor, at);
}

impl View for MonitorWallpapers {
    type V = Seq<(Seq<char>, Seq<char>)>;

    closed spec fn view(&self) -> Seq<(Seq<char>, Seq<char>)> {
        pairs_of(self.entries@)
    }
}

impl Clone for MonitorWallpapers {
    fn clone(&self) -> (r: Self)
        ensures
            r@ == self@,
    {
        proof {
            use_type_invariant(self);
        }
        let mut entries: Vec<MonitorWallpaper> = Vec::new();
        let mut i: usize = 0;
        while i < self.entries.len()
            invariant
                i <= self.entries.len(),
                entries@.len() == i,
                forall|j: int|
                    0 <= j < i ==> entries@[j].monitor@ == self.entries@[j].monitor@
                        && entries@[j].path@ == self.entries@[j].path@,
            decreases self.entries.len() - i,
        {
            let entry = &self.entries[i];
            entries.push(
                MonitorWallpaper { monitor: entry.monitor.clone(), path: entry.path.clone() },
            );
            i += 1;
        }
        assert(pairs_of(entries@) =~= pairs_of(self.entries@));
        MonitorWallpapers { entries }
    }
}

impl MonitorWallpapers {
    #[verifier::type_invariant]
    spec fn well_formed(self) -> bool {
        monitors_distinct(pairs_of(self.entries@))
    }

    /// The map that holds no monitor.
    pub fn new() -> (r: Self)
        ensures
            r@ == Seq::<(Seq<char>, Seq<char>)>::empty(),
    {
        let r = MonitorWallpapers { entries: Vec::new() };
        assert(pairs_of(r.entries@) =~= Seq::<(Seq<char>, Seq<char>)>::empty());
        r
    }

    /// The number of monitors.
    pub fn len(&self) -> (r: usize)
        ensures
            r == self@.len(),
            monitors_distinct(self@),
    {
        proof {
            use_type_invariant(self);
        }
        self.entries.len()
    }

    /// Whether no monitor is held.
    pub fn is_empty(&self) -> (r: bool)
        ensures
            r == (self@.len() == 0),
    {
        self.entries.len() == 0
    }

    /// The entry at a place, where the place is below the number of monitors.
    pub fn entry(&self, at: usize) -> (r: Option<&MonitorWallpaper>)
        ensures
            match r {
                Some(entry) => at < self@.len() && (entry.monitor@, entry.path@) == self@[at as int],
                None => at >= self@.len(),
            },
    {
        if at < self.entries.len() {
            Some(&self.entries[at])
        } else {
            None
        }
    }

    /// Whether some monitor has a path that is not empty.
    pub fn has_any_path(&self) -> (r: bool)
        ensures
            r == any_given(self@),
    {
        let mut i: usize = 0;
        while i < self.entries.len()
            invariant
                i <= self.entries.len(),
                forall|j: int| 0 <= j < i ==> (#[trigger] pairs_of(self.entries@)[j]).1.len() == 0,
            decreases self.entries.len() - i,
        {
            if !self.entries[i].path.as_str().is_empty() {
                assert(pairs_of(self.entries@)[i as int].1.len() > 0);
                return true;
            }
            i += 1;
        }
        false
    }

    /// The place of a monitor, or the number of monitors where it is not held.
    fn find(entries: &Vec<MonitorWallpaper>, monitor: &str) -> (r: usize)
        ensures
            r == place_of(pairs_of(entries@), monitor@),
            r <= entries.len(),
    {
        let mut i: usize = 0;
        while i < entries.len() && !same_text(entries[i].monitor.as_str(), monitor)
            invariant
                i <= entries.len(),
                forall|j: int| 0 <= j < i ==> pairs_of(entries@)[j].0 != monitor@,
            decreases entries.len() - i,
        {
            i += 1;
        }
        proof {
            lemma_place_of_unique(pairs_of(entries@), monitor@, i as int);
        }
        i
    }

    /// The path of a monitor.
    pub fn get(&self, monitor: &str) -> (r: Option<&String>)
        ensures
            match r {
                Some(path) => path_of(self@, monitor@) == Some(path@),
                None => path_of(self@, monitor@) is None,
            },
    {
        let at = MonitorWallpapers::find(&self.entries, monitor);
        if at < self.entries.len() {
            Some(&self.entries[at].path)
        } else {
            None
        }
    }

    /// Gives a monitor a path. Where the monitor had one, the new path takes
    /// its place; else the monitor is put at the end.
    pub fn insert(&mut self, monitor: String, path: String)
        ensures
            final(self)@ == put(old(self)@, monitor@, path@),
    {
        proof {
            use_type_invariant(&*self);
            lemma_put_distinct(old(self)@, monitor@, path@);
        }
        let mut entries: Vec<MonitorWallpaper> = Vec::new();
        std::mem::swap(&mut entries, &mut self.entries);
        let at = MonitorWallpapers::find(&entries, monitor.as_str());
        let ghost before = pairs_of(entries@);
        let ghost name = monitor@;
        let ghost image = path@;
        if at < entries.len() {
            entries.set(at, MonitorWallpaper { monitor, path });
        } else {
            entries.push(MonitorWallpaper { monitor, path });
        }
        assert(pairs_of(entries@) =~= put(before, name, image));
        self.entries = entries;
    }
}

/// What a session document holds.
#[derive(Debug, Clone)]
pub struct SessionJson {
    /// The wallpaper of every monitor.
    pub wallpaper_path: Option<String>,
    /// Whether each monitor has a wallpaper of its own.
    pub per_monitor_wallpaper: Option<bool>,
    /// The wallpapers of the monitors.
    pub monitor_wallpapers: MonitorWallpapers,
    /// Whether the light mode is on.
    pub is_light_mode: Option<bool>,
}

/// What a `SessionJson` holds, as sequences of characters.
pub struct SessionView {
    pub wallpaper_path: Option<Seq<char>>,
    pub per_monitor_wallpaper: Option<bool>,
    pub monitor_wallpapers: Seq<(Seq<char>, Seq<char>)>,
    pub is_light_mode: Option<bool>,
}

/// The characters of a string that may be absent.
pub open spec fn text_view(text: Option<String>) -> Option<Seq<char>> {
    match text {
        Some(t) => Some(t@),
        None => None,
    }
}

impl View for SessionJson {
    type V = SessionView;

    open spec fn view(&self) -> SessionView {
        SessionView {
            wallpaper_path: text_view(self.wallpaper_path),
            per_monitor_wallpaper: self.per_monitor_wallpaper,
            monitor_wallpapers: self.monitor_wallpapers@,
            is_light_mode: self.is_light_mode,
        }
    }
}

/// What a settings document holds: the scheme, and every other member as it
/// stands.
#[derive(Debug)]
pub struct SettingsJson {
    /// The scheme of the theme.
    pub matugen_scheme: Option<String>,
    /// The members that this library does not read.
    pub other: Vec<JsonMember>,
}

/// One wallpaper and the monitor that it is for; no monitor stands for all.
#[derive(Debug, Clone, PartialEq, Eq)]
pub struct Wallpaper {
    /// Path of the image.
    pub path: String,
    /// The monitor, or `None` for every monitor.
    pub monitor: Option<String>,
}

/// What a `Wallpaper` holds, as sequences of characters.
pub struct WallpaperView {
    pub path: Seq<char>,
    pub monitor: Option<Seq<char>>,
}

impl View for Wallpaper {
    type V = WallpaperView;

    open spec fn view(&self) -> WallpaperView {
        WallpaperView { path: self.path@, monitor: text_view(self.monitor) }
    }
}

/// The wallpapers that a session asks for, and its mode.
#[derive(Debug, Clone, PartialEq, Eq)]
pub struct WallpaperChange {
    /// The wallpapers, in order.
    pub wallpapers: Vec<Wallpaper>,
    /// Whether the light mode is on.
    pub is_light_mode: bool,
}

/// What a `WallpaperChange` holds, as sequences of characters.
pub struct WallpaperChangeView {
    pub wallpapers: Seq<WallpaperView>,
    pub is_light_mode: bool,
}

/// The views of a list of wallpapers.
pub open spec fn views_of(wallpapers: Seq<Wallpaper>) -> Seq<WallpaperView> {
    Seq::new(wallpapers.len(), |i: int| wallpapers[i]@)
}

impl View for WallpaperChange {
    type V = WallpaperChangeView;

    open spec fn view(&self) -> WallpaperChangeView {
        WallpaperChangeView {
            wallpapers: views_of(self.wallpapers@),
            is_light_mode: self.is_light_mode,
        }
    }
}

/// What came of the attempt to read a file.
#[derive(Debug, Clone)]
pub enum FileRead {
    /// There is no such file.
    Missing,
    /// The file could not be read; the text says why.
    Unreadable(String),
    /// The text of the file.
    Content(String),
}

/// Whether a path is a colour and no image: it begins with `#` or with `/#`.
pub open spec fn is_color(path: Seq<char>) -> bool {
    (path.len() >= 1 && path[0] == '#') || (path.len() >= 2 && path[0] == '/' && path[1] == '#')
}

/// Whether a path can name an image: it is not empty and no colour.
pub open spec fn usable(path: Seq<char>) -> bool {
    path.len() > 0 && !is_color(path)
}

/// Whether some monitor has a path that is not empty.
pub open spec fn any_given(pairs: Seq<(Seq<char>, Seq<char>)>) -> bool {
    exists|i: int| 0 <= i < pairs.len() && (#[trigger] pairs[i]).1.len() > 0
}

/// The wallpaper of a pair of monitor and path.
pub open spec fn for_pair(pair: (Seq<char>, Seq<char>)) -> WallpaperView {
    WallpaperView { path: pair.1, monitor: Some(pair.0) }
}

/// One wallpaper for each pair with a usable path, in the order of the pairs.
pub open spec fn usable_entries(pairs: Seq<(Seq<char>, Seq<char>)>) -> Seq<WallpaperView>
    decreases pairs.len(),
{
    if pairs.len() == 0 {
        Seq::empty()
    } else if usable(pairs.last().1) {
        usable_entries(pairs.drop_last()).push(for_pair(pairs.last()))
    } else {
        usable_entries(pairs.drop_last())
    }
}

/// The wallpaper of every monitor, where the path is usable.
pub open spec fn usable_top(path: Option<Seq<char>>) -> Seq<WallpaperView> {
    match path {
        Some(p) => if usable(p) {
            seq![WallpaperView { path: p, monitor: None }]
        } else {
            Seq::empty()
        },
        None => Seq::empty(),
    }
}

/// Whether a session gives each monitor a wallpaper of its own.
pub open spec fn per_monitor(s: SessionView) -> bool {
    s.per_monitor_wallpaper == Some(true)
}

/// The wallpapers that a session asks for. Where each monitor has its own
/// and some monitor has a path, these are the monitors' usable paths; else
/// it is the path of every monitor, where that is usable.
pub open spec fn assignments_of(s: SessionView) -> Seq<WallpaperView> {
    if per_monitor(s) && any_given(s.monitor_wallpapers) {
        usable_entries(s.monitor_wallpapers)
    } else {
        usable_top(s.wallpaper_path)
    }
}

/// The failure that reports a session without a usable wallpaper.
pub open spec fn no_wallpaper() -> ErrorView {
    ErrorView::InvalidWallpaperPath("No valid wallpapers found in session"@)
}

/// What a session asks for, or the failure where it asks for nothing usable.
pub open spec fn state_of(s: SessionView) -> Result<WallpaperChangeView, ErrorView> {
    if assignments_of(s).len() == 0 {
        Err(no_wallpaper())
    } else {
        Ok(
            WallpaperChangeView {
                wallpapers: assignments_of(s),
                is_light_mode: s.is_light_mode == Some(true),
            },
        )
    }
}

/// The view of a result.
pub open spec fn result_view(r: Result<WallpaperChange, DmsAwwwError>) -> Result<
    WallpaperChangeView,
    ErrorView,
> {
    match r {
        Ok(change) => Ok(change@),
        Err(e) => Err(e@),
    }
}

/// The paths of the wallpapers of a change, in order.
pub open spec fn paths_of(change: WallpaperChangeView) -> Seq<Seq<char>> {
    Seq::new(change.wallpapers.len(), |i: int| change.wallpapers[i].path)
}

/// What is seen of a change beside a fingerprint: whether the paths differ
/// from it, and the fingerprint from then on.
pub open spec fn observe(fingerprint: Seq<Seq<char>>, change: WallpaperChangeView) -> (
    bool,
    Seq<Seq<char>>,
) {
    (paths_of(change) != fingerprint, paths_of(change))
}

/// The pairs that the members of an object give, put one by one to `done`;
/// `None` where a member holds no text.
pub open spec fn wallpapers_from(members: Seq<JsonMember>, done: Seq<(Seq<char>, Seq<char>)>)
    -> Option<Seq<(Seq<char>, Seq<char>)>>
    decreases members.len(),
{
    if members.len() == 0 {
        Some(done)
    } else {
        match members[0].value {
            JsonValue::Text(path) => wallpapers_from(
                members.drop_first(),
                put(done, members[0].name@, path@),
            ),
            _ => None,
        }
    }
}

/// The wallpapers of the monitors in a member that may be absent and else
/// holds an object of texts.
pub open spec fn wallpapers_in(value: Option<JsonValue>) -> Option<Seq<(Seq<char>, Seq<char>)>> {
    match value {
        None => Some(Seq::empty()),
        Some(JsonValue::Object(members)) => wallpapers_from(members@, Seq::empty()),
        Some(_) => None,
    }
}

/// The session that a document holds; `None` where the document is no
/// object or a member is of the wrong kind.
pub open spec fn session_of(value: JsonValue) -> Option<SessionView> {
    match value {
        JsonValue::Object(members) => {
            let path = optional_text_in(member_of(members@, "wallpaperPath"@));
            let own = optional_flag_in(member_of(members@, "perMonitorWallpaper"@));
            let monitors = wallpapers_in(member_of(members@, "monitorWallpapers"@));
            let light = optional_flag_in(member_of(members@, "isLightMode"@));
            if path is Some && own is Some && monitors is Some && light is Some {
                Some(
                    SessionView {
                        wallpaper_path: path->0,
                        per_monitor_wallpaper: own->0,
                        monitor_wallpapers: monitors->0,
                        is_light_mode: light->0,
                    },
                )
            } else {
                None
            }
        },
        _ => None,
    }
}

/// The scheme that a settings document names: `None` where the document is
/// no object or the scheme is no text, `Some(None)` where it names none.
pub open spec fn scheme_of(value: JsonValue) -> Option<Option<Seq<char>>> {
    match value {
        JsonValue::Object(members) => optional_text_in(member_of(members@, "matugenScheme"@)),
        _ => None,
    }
}

/// The members that are not the scheme, in order.
pub open spec fn others_of(members: Seq<JsonMember>) -> Seq<JsonMember>
    decreases members.len(),
{
    if members.len() == 0 {
        Seq::empty()
    } else if members[0].name@ == "matugenScheme"@ {
        others_of(members.drop_first())
    } else {
        seq![members[0]] + others_of(members.drop_first())
    }
}

/// The members of a settings document that are not the scheme.
pub open spec fn others_in(value: JsonValue) -> Seq<JsonMember> {
    match value {
        JsonValue::Object(members) => others_of(members@),
        _ => Seq::empty(),
    }
}

/// The session that a file holds, where it could be read and holds one.
pub open spec fn session_in(file: FileRead) -> Option<SessionView> {
    match file {
        FileRead::Content(text) => match document_in(text@) {
            Some(value) => session_of(value),
            None => None,
        },
        _ => None,
    }
}

/// The scheme that a settings file names, where the file could be read and
/// holds settings.
pub open spec fn scheme_in(file: FileRead) -> Option<Option<Seq<char>>> {
    match file {
        FileRead::Content(text) => match document_in(text@) {
            Some(value) => scheme_of(value),
            None => None,
        },
        _ => None,
    }
}

/// Whether `e` reports why a file gave no document: it is absent, which
/// `absent` reports, or it could not be read, or it does not hold what was
/// expected.
pub open spec fn reports_unread(file: FileRead, absent: ErrorView, e: ErrorView) -> bool {
    match file {
        FileRead::Missing => e == absent,
        FileRead::Unreadable(why) => e == ErrorView::Io(why@),
        FileRead::Content(_) => e is Json,
    }
}

/// Whether a path can name an image: it is not empty and no colour.
pub fn is_usable(path: &str) -> (r: bool)
    ensures
        r == usable(path@),
{
    let n = path.unicode_len();
    if n == 0 {
        false
    } else if path.get_char(0) == '#' {
        false
    } else if n >= 2 && path.get_char(0) == '/' && path.get_char(1) == '#' {
        false
    } else {
        true
    }
}

/// Whether two lists hold the same texts in the same order.
pub fn same_texts(a: &Vec<String>, b: &Vec<String>) -> (r: bool)
    ensures
        r == (texts_of(a@) == texts_of(b@)),
{
    if a.len() != b.len() {
        assert(texts_of(a@).len() != texts_of(b@).len());
        return false;
    }
    let mut i: usize = 0;
    while i < a.len()
        invariant
            a.len() == b.len(),
            i <= a.len(),
            forall|j: int| 0 <= j < i ==> a@[j]@ == b@[j]@,
        decreases a.len() - i,
    {
        if !same_text(a[i].as_str(), b[i].as_str()) {
            assert(texts_of(a@)[i as int] != texts_of(b@)[i as int]);
            return false;
        }
        i += 1;
    }
    assert(texts_of(a@) =~= texts_of(b@));
    true
}

impl SessionJson {
    /// The session that a document holds. The document must be an object;
    /// `wallpaperPath` a text, `perMonitorWallpaper` and `isLightMode` truth
    /// values, each of which may be null or absent; `monitorWallpapers` an
    /// object of texts, which may be absent. Other members are passed over.
    pub fn from_json(value: &JsonValue) -> (r: Result<SessionJson, DmsAwwwError>)
        ensures
            match r {
                Ok(session) => session_of(*value) == Some(session@),
                Err(e) => session_of(*value) is None && e@ is Json,
            },
    {
        match value {
            JsonValue::Object(members) => {
                let wallpaper_path = optional_text(members, "wallpaperPath")?;
                let per_monitor_wallpaper = optional_flag(members, "perMonitorWallpaper")?;
                let monitor_wallpapers = match find_member(members, "monitorWallpapers") {
                    None => MonitorWallpapers::new(),
                    Some(JsonValue::Object(entries)) => SessionJson::wallpapers(entries)?,
                    Some(_) => {
                        return Err(unexpected("an object of monitor wallpapers"));
                    },
                };
                let is_light_mode = optional_flag(members, "isLightMode")?;
                Ok(
                    SessionJson {
                        wallpaper_path,
                        per_monitor_wallpaper,
                        monitor_wallpapers,
                        is_light_mode,
                    },
                )
            },
            _ => Err(unexpected("a session object")),
        }
    }

    /// The wallpapers of the monitors that the members of an object give.
    fn wallpapers(members: &Vec<JsonMember>) -> (r: Result<MonitorWallpapers, DmsAwwwError>)
        ensures
            match r {
                Ok(map) => wallpapers_from(members@, Seq::empty()) == Some(map@),
                Err(e) => wallpapers_from(members@, Seq::empty()) is None && e@ is Json,
            },
    {
        let mut map = MonitorWallpapers::new();
        let mut i: usize = 0;
        proof {
            assert(members@.skip(0) =~= members@);
        }
        while i < members.len()
            invariant
                i <= members.len(),
                wallpapers_from(members@, Seq::empty()) == wallpapers_from(
                    members@.skip(i as int),
                    map@,
                ),
            decreases members.len() - i,
        {
            proof {
                assert(members@.skip(i as int).drop_first() =~= members@.skip(i + 1));
            }
            match &members[i].value {
                JsonValue::Text(path) => {
                    map.insert(members[i].name.clone(), path.clone());
                },
                _ => {
                    return Err(unexpected("a wallpaper path"));
                },
            }
            i += 1;
        }
        Ok(map)
    }
}

impl SettingsJson {
    /// The settings that a document holds. The document must be an object
    /// and `matugenScheme` a text, which may be null or absent. Every other
    /// member is kept as it stands.
    pub fn from_json(value: JsonValue) -> (r: Result<SettingsJson, DmsAwwwError>)
        ensures
            match r {
                Ok(settings) => scheme_of(value) == Some(text_view(settings.matugen_scheme))
                    && settings.other@ == others_in(value),
                Err(e) => scheme_of(value) is None && e@ is Json,
            },
    {
        match value {
            JsonValue::Object(members) => {
                let matugen_scheme = optional_text(&members, "matugenScheme")?;
                let ghost all = members@;
                let mut other: Vec<JsonMember> = Vec::new();
                let mut rest = members;
                assert(other@ + others_of(rest@) =~= others_of(all));
                while rest.len() > 0
                    invariant
                        others_of(all) == other@ + others_of(rest@),
                    decreases rest.len(),
                {
                    let ghost before = rest@;
                    let ghost kept = other@;
                    let member = rest.remove(0);
                    assert(rest@ =~= before.drop_first());
                    if !same_text(member.name.as_str(), "matugenScheme") {
                        other.push(member);
                        assert(other@ + others_of(rest@) =~= kept + others_of(before));
                    }
                }
                assert(other@ + others_of(rest@) =~= other@);
                Ok(SettingsJson { matugen_scheme, other })
            },
            _ => Err(unexpected("a settings object")),
        }
    }
}

impl Wallpaper {
    /// A wallpaper for every monitor.
    pub fn new(path: String) -> (r: Self)
        ensures
            r@ == (WallpaperView { path: path@, monitor: None }),
    {
        Wallpaper { path, monitor: None }
    }

    /// A wallpaper for one monitor.
    pub fn for_monitor(path: String, monitor: String) -> (r: Self)
        ensures
            r@ == (WallpaperView { path: path@, monitor: Some(monitor@) }),
    {
        Wallpaper { path, monitor: Some(monitor) }
    }

    /// Whether the path is no colour.
    pub fn is_valid_image(&self) -> (r: bool)
        ensures
            r == !is_color(self@.path),
    {
        let path = self.path.as_str();
        let n = path.unicode_len();
        if n >= 1 && path.get_char(0) == '#' {
            false
        } else if n >= 2 && path.get_char(0) == '/' && path.get_char(1) == '#' {
            false
        } else {
            true
        }
    }
}

impl WallpaperChange {
    /// What a session asks for: in the mode where each monitor has its own
    /// wallpaper, one wallpaper for each monitor with a usable path, unless
    /// no monitor has a path at all; else the one wallpaper of every
    /// monitor, where its path is usable. A session that asks for nothing
    /// usable is a failure.
    pub fn from_session(session: &SessionJson) -> (r: Result<WallpaperChange, DmsAwwwError>)
        ensures
            result_view(r) == state_of(session@),
    {
        let own = match session.per_monitor_wallpaper {
            Some(flag) => flag,
            None => false,
        };
        let is_light_mode = match session.is_light_mode {
            Some(flag) => flag,
            None => false,
        };
        let mut wallpapers: Vec<Wallpaper> = Vec::new();
        if own && session.monitor_wallpapers.has_any_path() {
            let n = session.monitor_wallpapers.len();
            let mut i: usize = 0;
            assert(views_of(wallpapers@) =~= usable_entries(session@.monitor_wallpapers.take(0)));
            while i < n
                invariant
                    i <= n,
                    n == session@.monitor_wallpapers.len(),
                    views_of(wallpapers@) == usable_entries(
                        session@.monitor_wallpapers.take(i as int),
                    ),
                decreases n - i,
            {
                proof {
                    let next = session@.monitor_wallpapers.take(i + 1);
                    assert(next.drop_last() =~= session@.monitor_wallpapers.take(i as int));
                    assert(next.last() == session@.monitor_wallpapers[i as int]);
                }
                match session.monitor_wallpapers.entry(i) {
                    Some(entry) => {
                        if is_usable(entry.path.as_str()) {
                            let ghost before = views_of(wallpapers@);
                            let wallpaper = Wallpaper::for_monitor(
                                entry.path.clone(),
                                entry.monitor.clone(),
                            );
                            wallpapers.push(wallpaper);
                            assert(views_of(wallpapers@) =~= before.push(wallpaper@));
                        }
                    },
                    None => {},
                }
                i += 1;
            }
            assert(session@.monitor_wallpapers.take(n as int) =~= session@.monitor_wallpapers);
        } else {
            match &session.wallpaper_path {
                Some(path) => {
                    if is_usable(path.as_str()) {
                        let wallpaper = Wallpaper::new(path.clone());
                        wallpapers.push(wallpaper);
                        assert(views_of(wallpapers@) =~= seq![wallpaper@]);
                    } else {
                        assert(views_of(wallpapers@) =~= Seq::<WallpaperView>::empty());
                    }
                },
                None => {
                    assert(views_of(wallpapers@) =~= Seq::<WallpaperView>::empty());
                },
            }
        }
        if wallpapers.len() == 0 {
            Err(
                DmsAwwwError::InvalidWallpaperPath(
                    String::from_str("No valid wallpapers found in session"),
                ),
            )
        } else {
            Ok(WallpaperChange { wallpapers, is_light_mode })
        }
    }

    /// The paths of the wallpapers, in order.
    pub fn paths(&self) -> (r: Vec<String>)
        ensures
            texts_of(r@) == paths_of(self@),
    {
        let mut out: Vec<String> = Vec::new();
        let mut i: usize = 0;
        while i < self.wallpapers.len()
            invariant
                i <= self.wallpapers.len(),
                out@.len() == i,
                forall|j: int| 0 <= j < i ==> out@[j]@ == self.wallpapers@[j].path@,
            decreases self.wallpapers.len() - i,
        {
            out.push(self.wallpapers[i].path.clone());
            i += 1;
        }
        assert(texts_of(out@) =~= paths_of(self@));
        out
    }
}

/// Reads sessions and settings, and remembers the paths that the last
/// session asked for.
#[derive(Debug)]
pub struct DmsSession {
    config: Config,
    last_wallpapers: Vec<String>,
}

/// The change that a session file asks for, where it could be read and asks
/// for something usable.
pub open spec fn seen_in(file: FileRead) -> Option<WallpaperChangeView> {
    match session_in(file) {
        Some(s) => match state_of(s) {
            Ok(change) => Some(change),
            Err(_) => None,
        },
        None => None,
    }
}

/// Whether `r` is what a session file gives under a configuration: what its
/// session asks for, or why it gave no session.
pub open spec fn reads_as(
    config: ConfigView,
    file: FileRead,
    r: Result<WallpaperChangeView, ErrorView>,
) -> bool {
    match session_in(file) {
        Some(s) => r == state_of(s),
        None => r matches Err(e) && reports_unread(
            file,
            ErrorView::SessionFileNotFound(config.session_file),
            e,
        ),
    }
}

/// The mode that a session names.
pub open spec fn mode_of(s: SessionView) -> Seq<char> {
    if s.is_light_mode == Some(true) {
        "light"@
    } else {
        "dark"@
    }
}

impl DmsSession {
    /// The configuration in use.
    pub closed spec fn config(&self) -> ConfigView {
        self.config@
    }

    /// The paths that the last session asked for; empty before the first.
    pub closed spec fn fingerprint(&self) -> Seq<Seq<char>> {
        texts_of(self.last_wallpapers@)
    }

    /// A reader that has seen no session yet.
    pub fn new(config: Config) -> (r: Self)
        ensures
            r.config() == config@,
            r.fingerprint() == Seq::<Seq<char>>::empty(),
    {
        let r = DmsSession { config, last_wallpapers: Vec::new() };
        assert(texts_of(r.last_wallpapers@) =~= Seq::<Seq<char>>::empty());
        r
    }

    /// The session that the session file holds.
    pub fn read_session(&self, file: &FileRead) -> (r: Result<SessionJson, DmsAwwwError>)
        ensures
            match r {
                Ok(session) => session_in(*file) == Some(session@),
                Err(e) => session_in(*file) is None && reports_unread(
                    *file,
                    ErrorView::SessionFileNotFound(self.config().session_file),
                    e@,
                ),
            },
    {
        match file {
            FileRead::Missing => Err(
                DmsAwwwError::SessionFileNotFound(self.config.session_file_path()),
            ),
            FileRead::Unreadable(why) => Err(DmsAwwwError::Io(why.clone())),
            FileRead::Content(text) => {
                let value = parse_text(text.as_str())?;
                SessionJson::from_json(&value)
            },
        }
    }

    /// The settings that the settings file holds.
    pub fn read_settings(&self, file: &FileRead) -> (r: Result<SettingsJson, DmsAwwwError>)
        ensures
            match r {
                Ok(settings) => scheme_in(*file) == Some(text_view(settings.matugen_scheme)),
                Err(e) => scheme_in(*file) is None && reports_unread(
                    *file,
                    ErrorView::SettingsFileNotFound(self.config().settings_file),
                    e@,
                ),
            },
    {
        match file {
            FileRead::Missing => Err(
                DmsAwwwError::SettingsFileNotFound(self.config.settings_file_path()),
            ),
            FileRead::Unreadable(why) => Err(DmsAwwwError::Io(why.clone())),
            FileRead::Content(text) => {
                let value = parse_text(text.as_str())?;
                SettingsJson::from_json(value)
            },
        }
    }

    /// What the session file asks for.
    pub fn get_current_state(&self, session_file: &FileRead) -> (r: Result<
        WallpaperChange,
        DmsAwwwError,
    >)
        ensures
            reads_as(self.config(), *session_file, result_view(r)),
    {
        let session = self.read_session(session_file)?;
        WallpaperChange::from_session(&session)
    }

    /// Whether the session file asks for other paths than the last session
    /// did, and remembers its paths where it does. A file that gives no
    /// usable session leaves what is remembered as it is.
    pub fn has_changed(&mut self, session_file: &FileRead) -> (r: Result<bool, DmsAwwwError>)
        ensures
            final(self).config() == old(self).config(),
            match seen_in(*session_file) {
                Some(change) => {
                    &&& r matches Ok(changed)
                    &&& changed == observe(old(self).fingerprint(), change).0
                    &&& final(self).fingerprint() == observe(old(self).fingerprint(), change).1
                },
                None => {
                    &&& r matches Err(e)
                    &&& reads_as(old(self).config(), *session_file, Err(e@))
                    &&& final(self).fingerprint() == old(self).fingerprint()
                },
            },
    {
        let state = self.get_current_state(session_file)?;
        let current = state.paths();
        let changed = !same_texts(&current, &self.last_wallpapers);
        if changed {
            self.last_wallpapers = current;
        }
        Ok(changed)
    }

    /// The scheme that the settings file names, or the configured one where
    /// the file names none or gives no settings.
    pub fn get_matugen_scheme(&self, settings_file: &FileRead) -> (r: String)
        ensures
            r@ == match scheme_in(*settings_file) {
                Some(Some(name)) => name,
                _ => self.config().default_scheme,
            },
    {
        match self.read_settings(settings_file) {
            Ok(settings) => match settings.matugen_scheme {
                Some(name) => name,
                None => self.config.matugen.default_scheme.clone(),
            },
            Err(_) => self.config.matugen.default_scheme.clone(),
        }
    }

    /// The mode that the session file names: `light` or `dark`.
    pub fn get_theme_mode(&self, session_file: &FileRead) -> (r: Result<String, DmsAwwwError>)
        ensures
            match session_in(*session_file) {
                Some(s) => r matches Ok(mode) && mode@ == mode_of(s),
                None => r matches Err(e) && reports_unread(
                    *session_file,
                    ErrorView::SessionFileNotFound(self.config().session_file),
                    e@,
                ),
            },
    {
        let session = self.read_session(session_file)?;
        Ok(
            if session.is_light_mode == Some(true) {
                String::from_str("light")
            } else {
                String::from_str("dark")
            },
        )
    }
}

/// Every wallpaper among the usable entries comes from a pair with a usable
/// path, and every such pair has its wallpaper there.
pub proof fn lemma_usable_entries(pairs: Seq<(Seq<char>, Seq<char>)>)
    ensures
        usable_entries(pairs).len() <= pairs.len(),
        forall|j: int|
            0 <= j < usable_entries(pairs).len() ==> usable(
                (#[trigger] usable_entries(pairs)[j]).path,
            ) && exists|i: int|
                0 <= i < pairs.len() && usable_entries(pairs)[j] == for_pair(#[trigger] pairs[i]),
        forall|i: int|
            0 <= i < pairs.len() && usable((#[trigger] pairs[i]).1) ==> usable_entries(
                pairs,
            ).contains(for_pair(pairs[i])),
    decreases pairs.len(),
{
    if pairs.len() > 0 {
        let front = pairs.drop_last();
        lemma_usable_entries(front);
        let all = usable_entries(pairs);
        assert forall|j: int| 0 <= j < all.len() implies usable((#[trigger] all[j]).path)
            && exists|i: int| 0 <= i < pairs.len() && all[j] == for_pair(#[trigger] pairs[i]) by {
            if j < usable_entries(front).len() {
                let i = choose|i: int|
                    0 <= i < front.len() && usable_entries(front)[j] == for_pair(
                        #[trigger] front[i],
                    );
                assert(front[i] == pairs[i]);
            } else {
                assert(all[j] == for_pair(pairs[pairs.len() - 1]));
            }
        }
        assert forall|i: int| 0 <= i < pairs.len() && usable((#[trigger] pairs[i]).1) implies all.contains(
            for_pair(pairs[i]),
        ) by {
            if i < front.len() {
                assert(front[i] == pairs[i]);
                let j = choose|j: int|
                    0 <= j < usable_entries(front).len() && usable_entries(front)[j] == for_pair(
                        front[i],
                    );
                assert(all[j] == for_pair(pairs[i]));
            } else {
                assert(all[all.len() - 1] == for_pair(pairs[i]));
            }
        }
    }
}

/// The usable entries are the pairs with a usable path, each as the
/// wallpaper of its monitor.
pub proof fn lemma_usable_entries_filtered(pairs: Seq<(Seq<char>, Seq<char>)>)
    ensures
        usable_entries(pairs) == pairs.filter(|p: (Seq<char>, Seq<char>)| usable(p.1)).map_values(
            |p: (Seq<char>, Seq<char>)| for_pair(p),
        ),
    decreases pairs.len(),
{
    let keep = |p: (Seq<char>, Seq<char>)| usable(p.1);
    let make = |p: (Seq<char>, Seq<char>)| for_pair(p);
    reveal(Seq::filter);
    if pairs.len() > 0 {
        lemma_usable_entries_filtered(pairs.drop_last());
        let front = pairs.drop_last().filter(keep);
        if usable(pairs.last().1) {
            assert(front.push(pairs.last()).map_values(make) =~= front.map_values(make).push(
                for_pair(pairs.last()),
            ));
        }
    } else {
        assert(pairs.filter(keep).map_values(make) =~= Seq::<WallpaperView>::empty());
    }
}

/// A session that asks for something asks for at least one wallpaper, and
/// the path of each is not empty and no colour.
pub proof fn law_state_usable(s: SessionView)
    ensures
        state_of(s) matches Ok(change) ==> change.wallpapers.len() > 0 && forall|j: int|
            0 <= j < change.wallpapers.len() ==> usable((#[trigger] change.wallpapers[j]).path),
{
    lemma_usable_entries(s.monitor_wallpapers);
}

/// A session in which the monitors have no wallpapers of their own, and whose
/// path is usable, asks for exactly that path, for every monitor.
pub proof fn law_single_wallpaper(s: SessionView, path: Seq<char>)
    requires
        !per_monitor(s),
        s.wallpaper_path == Some(path),
        usable(path),
    ensures
        state_of(s) == Ok::<WallpaperChangeView, ErrorView>(
            WallpaperChangeView {
                wallpapers: seq![WallpaperView { path, monitor: None }],
                is_light_mode: s.is_light_mode == Some(true),
            },
        ),
{
}

/// A session in which each monitor has its own wallpaper, and some monitor a
/// usable path, asks for one wallpaper for each monitor with a usable path
/// and for none beside them.
pub proof fn law_per_monitor(s: SessionView)
    requires
        per_monitor(s),
        exists|i: int|
            0 <= i < s.monitor_wallpapers.len() && usable((#[trigger] s.monitor_wallpapers[i]).1),
    ensures
        state_of(s) matches Ok(change) && change.wallpapers == s.monitor_wallpapers.filter(
            |p: (Seq<char>, Seq<char>)| usable(p.1),
        ).map_values(|p: (Seq<char>, Seq<char>)| for_pair(p)),
{
    let i = choose|i: int|
        0 <= i < s.monitor_wallpapers.len() && usable((#[trigger] s.monitor_wallpapers[i]).1);
    assert(s.monitor_wallpapers[i].1.len() > 0);
    lemma_usable_entries(s.monitor_wallpapers);
    lemma_usable_entries_filtered(s.monitor_wallpapers);
    assert(usable_entries(s.monitor_wallpapers).contains(for_pair(s.monitor_wallpapers[i])));
}

/// A session in which each monitor has its own wallpaper, but no monitor a
/// path, asks for the path of every monitor, where that is usable.
pub proof fn law_fallback(s: SessionView)
    requires
        per_monitor(s),
        forall|i: int|
            0 <= i < s.monitor_wallpapers.len() ==> (#[trigger] s.monitor_wallpapers[i]).1.len()
                == 0,
    ensures
        assignments_of(s) == usable_top(s.wallpaper_path),
{
}

/// A session fails exactly where nothing that it names is usable, and then
/// with the same failure.
pub proof fn law_nothing_usable(s: SessionView)
    ensures
        state_of(s) is Err <==> assignments_of(s).len() == 0,
        state_of(s) matches Err(e) ==> e == no_wallpaper(),
        !per_monitor(s) && (s.wallpaper_path matches Some(p) ==> !usable(p)) ==> state_of(s)
            is Err,
{
}

/// The first session that asks for something is a change.
pub proof fn law_first_observation(s: SessionView)
    requires
        state_of(s) is Ok,
    ensures
        observe(Seq::empty(), state_of(s)->Ok_0).0,
{
    let change = state_of(s)->Ok_0;
    assert(paths_of(change).len() > 0);
}

/// A change that is seen twice in a row is no change the second time.
pub proof fn law_repeated_observation(fingerprint: Seq<Seq<char>>, change: WallpaperChangeView)
    ensures
        !observe(observe(fingerprint, change).1, change).0,
{
}

/// A change whose paths differ from those seen last is a change.
pub proof fn law_differing_observation(
    fingerprint: Seq<Seq<char>>,
    first: WallpaperChangeView,
    second: WallpaperChangeView,
)
    requires
        paths_of(second) != paths_of(first),
    ensures
        observe(observe(fingerprint, first).1, second).0,
{
}

} // verus!
