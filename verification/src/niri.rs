//! The monitors: what the compositor says of its outputs, in either of the
//! two forms in which it answers, and which monitors are addressed in the
//! end.

use crate::dms::text_view;
use crate::error::{DmsAwwwError, ErrorView};
use crate::json::{
    find_member, flag_in, flag_or_false, json_document, member_of, number_view, optional_number,
    optional_number_in, optional_text, optional_text_in, parse_bytes, required_i32,
    required_i32_in, required_text, required_text_in, required_u32, required_u32_in, text_in,
    text_or_empty, unexpected, JsonMember, JsonNumber, JsonValue, NumberView,
};
use crate::text::{
    chars_of, find_char, first_at, has_prefix, line_at, lines_of, range_has_prefix, range_is,
    text_between, texts_of, trim_range, trimmed,
};
use vstd::prelude::*;

verus! {

/// The size of an output in pixels.
#[derive(Debug, Clone, Copy, PartialEq, Eq, Structural)]
pub struct OutputResolution {
    pub width: u32,
    pub height: u32,
}

/// The place of an output in the layout.
#[derive(Debug, Clone, Copy, PartialEq, Eq, Structural)]
pub struct OutputPosition {
    pub x: i32,
    pub y: i32,
}

/// The size of an output in millimetres.
#[derive(Debug, Clone, Copy, PartialEq, Eq, Structural)]
pub struct PhysicalSize {
    pub width: u32,
    pub height: u32,
}

/// One output as the compositor describes it.
#[derive(Debug)]
pub struct NiriOutput {
    /// The name by which the output is addressed.
    pub name: String,
    /// Whether the output is in use.
    pub enabled: bool,
    pub make: String,
    pub model: String,
    pub resolution: Option<OutputResolution>,
    pub position: Option<OutputPosition>,
    /// The refresh rate, as the number that the compositor wrote.
    pub refresh_rate: Option<JsonNumber>,
    pub physical_size: Option<PhysicalSize>,
    pub current_workspace: Option<String>,
}

/// What a `NiriOutput` holds, as sequences of characters.
pub struct OutputView {
    pub name: Seq<char>,
    pub enabled: bool,
    pub make: Seq<char>,
    pub model: Seq<char>,
    pub resolution: Option<OutputResolution>,
    pub position: Option<OutputPosition>,
    pub refresh_rate: Option<NumberView>,
    pub physical_size: Option<PhysicalSize>,
    pub current_workspace: Option<Seq<char>>,
}

impl View for NiriOutput {
    type V = OutputView;

    open spec fn view(&self) -> OutputView {
        OutputView {
            name: self.name@,
            enabled: self.enabled,
            make: self.make@,
            model: self.model@,
            resolution: self.resolution,
            position: self.position,
            refresh_rate: number_view(self.refresh_rate),
            physical_size: self.physical_size,
            current_workspace: match self.current_workspace {
                Some(name) => Some(name@),
                None => None,
            },
        }
    }
}

/// What came of running the compositor's query.
#[derive(Debug, Clone)]
pub enum CommandRun {
    /// The query could not be run; the text says why.
    Failed(String),
    /// The query ran and ended.
    Finished { success: bool, stdout: Vec<u8>, stderr: Vec<u8> },
}

/// What follows the first run of the query.
#[derive(Debug)]
pub enum DetectStep {
    /// These outputs are enabled.
    Found(Vec<String>),
    /// The query failed for good.
    Failed(DmsAwwwError),
    /// The query is to be run once more, in its older form.
    AskLegacy,
}

/// The client of the compositor.
#[derive(Debug, Clone, Copy)]
pub struct NiriClient;

/// The text that `String::from_utf8_lossy` gives for bytes that are no UTF-8.
pub uninterp spec fn lossy_text(bytes: Seq<u8>) -> Seq<char>;

/// The text that bytes hold: what they spell in UTF-8, or what the lossy
/// conversion makes of them.
pub open spec fn decoded(bytes: Seq<u8>) -> Seq<char> {
    if vstd::utf8::valid_utf8(bytes) {
        vstd::utf8::decode_utf8(bytes)
    } else {
        lossy_text(bytes)
    }
}

/// The views of a list of outputs.
pub open spec fn output_views(outputs: Seq<NiriOutput>) -> Seq<OutputView> {
    Seq::new(outputs.len(), |i: int| outputs[i]@)
}

/// A size in a member that may be absent or null and else is an object with
/// `width` and `height`. The outer `None` stands for anything else.
pub open spec fn extent_in(value: Option<JsonValue>) -> Option<Option<(u32, u32)>> {
    match value {
        None => Some(None),
        Some(JsonValue::Null) => Some(None),
        Some(JsonValue::Object(members)) => match (
            required_u32_in(member_of(members@, "width"@)),
            required_u32_in(member_of(members@, "height"@)),
        ) {
            (Some(width), Some(height)) => Some(Some((width, height))),
            _ => None,
        },
        Some(_) => None,
    }
}

/// A place in a member that may be absent or null and else is an object with
/// `x` and `y`. The outer `None` stands for anything else.
pub open spec fn place_in(value: Option<JsonValue>) -> Option<Option<OutputPosition>> {
    match value {
        None => Some(None),
        Some(JsonValue::Null) => Some(None),
        Some(JsonValue::Object(members)) => match (
            required_i32_in(member_of(members@, "x"@)),
            required_i32_in(member_of(members@, "y"@)),
        ) {
            (Some(x), Some(y)) => Some(Some(OutputPosition { x, y })),
            _ => None,
        },
        Some(_) => None,
    }
}

/// The resolution that a pair of width and height stands for.
pub open spec fn as_resolution(extent: Option<(u32, u32)>) -> Option<OutputResolution> {
    match extent {
        Some((width, height)) => Some(OutputResolution { width, height }),
        None => None,
    }
}

/// The physical size that a pair of width and height stands for.
pub open spec fn as_physical(extent: Option<(u32, u32)>) -> Option<PhysicalSize> {
    match extent {
        Some((width, height)) => Some(PhysicalSize { width, height }),
        None => None,
    }
}

/// The output that a value describes; `None` where the value is no object,
/// has no name, or a member is of the wrong kind.
pub open spec fn output_of(value: JsonValue) -> Option<OutputView> {
    match value {
        JsonValue::Object(members) => {
            let name = required_text_in(member_of(members@, "name"@));
            let enabled = flag_in(member_of(members@, "enabled"@));
            let make = text_in(member_of(members@, "make"@));
            let model = text_in(member_of(members@, "model"@));
            let resolution = extent_in(member_of(members@, "resolution"@));
            let position = place_in(member_of(members@, "position"@));
            let rate = optional_number_in(member_of(members@, "refresh_rate"@));
            let size = extent_in(member_of(members@, "physicalSize"@));
            let workspace = optional_text_in(member_of(members@, "currentWorkspace"@));
            if name is Some && enabled is Some && make is Some && model is Some && resolution
                is Some && position is Some && rate is Some && size is Some && workspace
                is Some {
                Some(
                    OutputView {
                        name: name->0,
                        enabled: enabled->0,
                        make: make->0,
                        model: model->0,
                        resolution: as_resolution(resolution->0),
                        position: position->0,
                        refresh_rate: rate->0,
                        physical_size: as_physical(size->0),
                        current_workspace: workspace->0,
                    },
                )
            } else {
                None
            }
        },
        _ => None,
    }
}

/// The outputs that the items of a list describe, put after `done`; `None`
/// where an item describes none.
pub open spec fn outputs_from(items: Seq<JsonValue>, done: Seq<OutputView>) -> Option<
    Seq<OutputView>,
>
    decreases items.len(),
{
    if items.len() == 0 {
        Some(done)
    } else {
        match output_of(items[0]) {
            Some(output) => outputs_from(items.drop_first(), done.push(output)),
            None => None,
        }
    }
}

/// The outputs that a document lists; `None` where it is no list of outputs.
pub open spec fn outputs_of(value: JsonValue) -> Option<Seq<OutputView>> {
    match value {
        JsonValue::Array(items) => outputs_from(items@, Seq::empty()),
        _ => None,
    }
}

/// The names of the outputs that are enabled, in order.
pub open spec fn enabled_of(outputs: Seq<OutputView>) -> Seq<Seq<char>>
    decreases outputs.len(),
{
    if outputs.len() == 0 {
        Seq::empty()
    } else if outputs.last().enabled {
        enabled_of(outputs.drop_last()).push(outputs.last().name)
    } else {
        enabled_of(outputs.drop_last())
    }
}

/// The outputs that bytes list as JSON.
pub open spec fn outputs_in_document(bytes: Seq<u8>) -> Option<Seq<OutputView>> {
    match json_document(bytes) {
        Some(value) => outputs_of(value),
        None => None,
    }
}

/// The view of the answer to a query.
pub open spec fn names_view(r: Result<Vec<String>, DmsAwwwError>) -> Result<
    Seq<Seq<char>>,
    ErrorView,
> {
    match r {
        Ok(names) => Ok(texts_of(names@)),
        Err(e) => Err(e@),
    }
}

/// The names of the enabled outputs, or the failure where there is none.
pub open spec fn some_enabled(names: Seq<Seq<char>>) -> Result<Seq<Seq<char>>, ErrorView> {
    if names.len() == 0 {
        Err(ErrorView::NoMonitorsDetected)
    } else {
        Ok(names)
    }
}

/// Whether `r` is what bytes answer as JSON: the names of the enabled
/// outputs, the failure that none is enabled, or the failure that the bytes
/// are no list of outputs.
pub open spec fn document_answer(bytes: Seq<u8>, r: Result<Seq<Seq<char>>, ErrorView>) -> bool {
    match outputs_in_document(bytes) {
        Some(outputs) => r == some_enabled(enabled_of(outputs)),
        None => r matches Err(e) && e is Json,
    }
}

/// What is known while the lines of a dump are read: the names found, the
/// output that was introduced last, and whether it was marked as disabled.
pub struct Scan {
    pub found: Seq<Seq<char>>,
    pub current: Option<Seq<char>>,
    pub disabled: bool,
}

/// The names found once the last output is counted too, unless it is
/// disabled.
pub open spec fn flushed(s: Scan) -> Seq<Seq<char>> {
    if s.current is Some && !s.disabled {
        s.found.push(s.current->0)
    } else {
        s.found
    }
}

/// What stands between the first `(` and the first `)` after it.
pub open spec fn group_in(rest: Seq<char>) -> Option<Seq<char>> {
    let open = first_at(rest, '(');
    if 0 <= open < rest.len() {
        let tail = rest.skip(open);
        let close = first_at(tail, ')');
        if 0 <= close < tail.len() {
            Some(tail.subrange(1, close))
        } else {
            None
        }
    } else {
        None
    }
}

/// What is known after one more line. A line that begins with `Output `
/// counts the output before it and, where it holds a group in parentheses,
/// introduces the output of that name. A line that holds only `Disabled`
/// marks the output introduced last.
pub open spec fn after_line(s: Scan, line: Seq<char>) -> Scan {
    if has_prefix(line, "Output "@) {
        match group_in(line.skip("Output "@.len() as int)) {
            Some(name) => Scan { found: flushed(s), current: Some(name), disabled: false },
            None => Scan { found: flushed(s), current: s.current, disabled: s.disabled },
        }
    } else if trimmed(line) == "Disabled"@ {
        Scan { found: s.found, current: s.current, disabled: true }
    } else {
        s
    }
}

/// What is known after a run of lines.
pub open spec fn after_lines(s: Scan, lines: Seq<Seq<char>>) -> Scan
    decreases lines.len(),
{
    if lines.len() == 0 {
        s
    } else {
        after_lines(after_line(s, lines[0]), lines.drop_first())
    }
}

/// The names of the enabled outputs in a dump.
pub open spec fn outputs_in(text: Seq<char>) -> Seq<Seq<char>> {
    flushed(
        after_lines(Scan { found: Seq::empty(), current: None, disabled: false }, lines_of(text)),
    )
}

/// The outputs that either form of answer names: those of the JSON where
/// there are any, else those of the dump where there are any.
pub open spec fn found_in(bytes: Seq<u8>) -> Option<Seq<Seq<char>>> {
    match outputs_in_document(bytes) {
        Some(outputs) => if enabled_of(outputs).len() > 0 {
            Some(enabled_of(outputs))
        } else if outputs_in(decoded(bytes)).len() > 0 {
            Some(outputs_in(decoded(bytes)))
        } else {
            None
        },
        None => if outputs_in(decoded(bytes)).len() > 0 {
            Some(outputs_in(decoded(bytes)))
        } else {
            None
        },
    }
}

/// The failure that reports a query which ended badly.
pub open spec fn query_failed(stderr: Seq<u8>) -> ErrorView {
    ErrorView::NiriIpc("niri msg outputs failed: "@ + decoded(stderr))
}

/// Whether `r` is what the older form of the query answers.
pub open spec fn legacy_answer(run: CommandRun, r: Result<Seq<Seq<char>>, ErrorView>) -> bool {
    match run {
        CommandRun::Failed(why) => r == Err::<Seq<Seq<char>>, ErrorView>(ErrorView::Io(why@)),
        CommandRun::Finished { success, stdout, stderr } => if success {
            document_answer(stdout@, r)
        } else {
            r == Err::<Seq<Seq<char>>, ErrorView>(query_failed(stderr@))
        },
    }
}

/// The monitors that are addressed: those named by hand; else, where the
/// compositor may be asked, those it named, or `ALL` where it named none or
/// failed; else none, which is a failure.
pub open spec fn resolved(
    explicit: Seq<Seq<char>>,
    auto_detect: bool,
    detected: Option<Seq<Seq<char>>>,
) -> Result<Seq<Seq<char>>, ErrorView> {
    if explicit.len() > 0 {
        Ok(explicit)
    } else if auto_detect {
        match detected {
            Some(names) => if names.len() > 0 {
                Ok(names)
            } else {
                Ok(seq!["ALL"@])
            },
            None => Ok(seq!["ALL"@]),
        }
    } else {
        Err(ErrorView::NoMonitorsDetected)
    }
}

/// `String::from_utf8_lossy`: the text that the bytes spell where they are
/// UTF-8, and else a text that depends on the bytes alone.
#[verifier::external_body]
fn decode_lossy(bytes: &[u8]) -> (r: String)
    ensures
        r@ == (if vstd::utf8::valid_utf8(bytes@) {
            vstd::utf8::decode_utf8(bytes@)
        } else {
            lossy_text(bytes@)
        }),
{
    String::from_utf8_lossy(bytes).into_owned()
}

/// Reads a size: an object with `width` and `height`, which may be null or
/// absent.
fn extent(members: &Vec<JsonMember>, name: &str) -> (r: Result<Option<(u32, u32)>, DmsAwwwError>)
    ensures
        match r {
            Ok(size) => extent_in(member_of(members@, name@)) == Some(size),
            Err(e) => extent_in(member_of(members@, name@)) is None && e@ is Json,
        },
{
    match find_member(members, name) {
        None => Ok(None),
        Some(JsonValue::Null) => Ok(None),
        Some(JsonValue::Object(fields)) => {
            let width = required_u32(fields, "width")?;
            let height = required_u32(fields, "height")?;
            Ok(Some((width, height)))
        },
        Some(_) => Err(unexpected("a size")),
    }
}

/// Reads a place: an object with `x` and `y`, which may be null or absent.
fn place(members: &Vec<JsonMember>, name: &str) -> (r: Result<
    Option<OutputPosition>,
    DmsAwwwError,
>)
    ensures
        match r {
            Ok(at) => place_in(member_of(members@, name@)) == Some(at),
            Err(e) => place_in(member_of(members@, name@)) is None && e@ is Json,
        },
{
    match find_member(members, name) {
        None => Ok(None),
        Some(JsonValue::Null) => Ok(None),
        Some(JsonValue::Object(fields)) => {
            let x = required_i32(fields, "x")?;
            let y = required_i32(fields, "y")?;
            Ok(Some(OutputPosition { x, y }))
        },
        Some(_) => Err(unexpected("a position")),
    }
}

impl NiriOutput {
    /// The output that a value describes. The value must be an object with
    /// a `name`; `enabled` counts as false and `make` and `model` as empty
    /// where they are absent; the other members may be null or absent.
    pub fn from_json(value: &JsonValue) -> (r: Result<NiriOutput, DmsAwwwError>)
        ensures
            match r {
                Ok(output) => output_of(*value) == Some(output@),
                Err(e) => output_of(*value) is None && e@ is Json,
            },
    {
        match value {
            JsonValue::Object(members) => {
                let name = required_text(members, "name")?;
                let enabled = flag_or_false(members, "enabled")?;
                let make = text_or_empty(members, "make")?;
                let model = text_or_empty(members, "model")?;
                let resolution = match extent(members, "resolution")? {
                    Some((width, height)) => Some(OutputResolution { width, height }),
                    None => None,
                };
                let position = place(members, "position")?;
                let refresh_rate = optional_number(members, "refresh_rate")?;
                let physical_size = match extent(members, "physicalSize")? {
                    Some((width, height)) => Some(PhysicalSize { width, height }),
                    None => None,
                };
                let current_workspace = optional_text(members, "currentWorkspace")?;
                Ok(
                    NiriOutput {
                        name,
                        enabled,
                        make,
                        model,
                        resolution,
                        position,
                        refresh_rate,
                        physical_size,
                        current_workspace,
                    },
                )
            },
            _ => Err(unexpected("an output object")),
        }
    }

    /// The outputs that a document lists. The document must be a list, and
    /// each item an output.
    pub fn list_from_json(value: &JsonValue) -> (r: Result<Vec<NiriOutput>, DmsAwwwError>)
        ensures
            match r {
                Ok(outputs) => outputs_of(*value) == Some(output_views(outputs@)),
                Err(e) => outputs_of(*value) is None && e@ is Json,
            },
    {
        match value {
            JsonValue::Array(items) => {
                let mut outputs: Vec<NiriOutput> = Vec::new();
                let mut i: usize = 0;
                proof {
                    assert(items@.skip(0) =~= items@);
                    assert(output_views(outputs@) =~= Seq::<OutputView>::empty());
                }
                while i < items.len()
                    invariant
                        i <= items.len(),
                        outputs_of(*value) == outputs_from(items@, Seq::empty()),
                        outputs_from(items@, Seq::empty()) == outputs_from(
                            items@.skip(i as int),
                            output_views(outputs@),
                        ),
                    decreases items.len() - i,
                {
                    proof {
                        assert(items@.skip(i as int).drop_first() =~= items@.skip(i + 1));
                    }
                    let ghost before = output_views(outputs@);
                    let output = match NiriOutput::from_json(&items[i]) {
                        Ok(output) => output,
                        Err(e) => {
                            proof {
                                assert(items@.skip(i as int)[0] == items@[i as int]);
                                assert(output_of(items@[i as int]) is None);
                                assert(outputs_from(items@.skip(i as int), before) is None);
                                assert(outputs_of(*value) is None);
                            }
                            return Err(e);
                        },
                    };
                    proof {
                        assert(items@.skip(i as int)[0] == items@[i as int]);
                    }
                    let ghost view = output@;
                    outputs.push(output);
                    proof {
                        assert(output_views(outputs@) =~= before.push(view));
                    }
                    i += 1;
                }
                Ok(outputs)
            },
            _ => Err(unexpected("a list of outputs")),
        }
    }
}

/// The names of the outputs that are enabled, in order.
pub fn enabled_names(outputs: &Vec<NiriOutput>) -> (r: Vec<String>)
    ensures
        texts_of(r@) == enabled_of(output_views(outputs@)),
{
    let mut names: Vec<String> = Vec::new();
    let mut i: usize = 0;
    proof {
        assert(texts_of(names@) =~= enabled_of(output_views(outputs@).take(0)));
    }
    while i < outputs.len()
        invariant
            i <= outputs.len(),
            texts_of(names@) == enabled_of(output_views(outputs@).take(i as int)),
        decreases outputs.len() - i,
    {
        proof {
            let next = output_views(outputs@).take(i + 1);
            assert(next.drop_last() =~= output_views(outputs@).take(i as int));
            assert(next.last() == outputs@[i as int]@);
        }
        if outputs[i].enabled {
            let ghost before = texts_of(names@);
            names.push(outputs[i].name.clone());
            proof {
                assert(texts_of(names@) =~= before.push(outputs@[i as int].name@));
            }
        }
        i += 1;
    }
    proof {
        assert(output_views(outputs@).take(outputs.len() as int) =~= output_views(outputs@));
    }
    names
}

/// The names of the enabled outputs in a document that lists outputs.
pub fn enabled_outputs_in(value: &JsonValue) -> (r: Result<Vec<String>, DmsAwwwError>)
    ensures
        match outputs_of(*value) {
            Some(outputs) => names_view(r) == some_enabled(enabled_of(outputs)),
            None => r matches Err(e) && e@ is Json,
        },
{
    let outputs = NiriOutput::list_from_json(value)?;
    let names = enabled_names(&outputs);
    if names.len() == 0 {
        assert(texts_of(names@).len() == 0);
        Err(DmsAwwwError::NoMonitorsDetected)
    } else {
        assert(texts_of(names@).len() > 0);
        Ok(names)
    }
}

/// The names of the enabled outputs in an answer in JSON.
pub fn parse_niri_outputs(stdout: &[u8]) -> (r: Result<Vec<String>, DmsAwwwError>)
    ensures
        document_answer(stdout@, names_view(r)),
{
    let value = parse_bytes(stdout)?;
    enabled_outputs_in(&value)
}

/// The text between the first `(` and the first `)` after it, in the range
/// from `from` up to `to`.
fn group_between(text: &str, chars: &Vec<char>, from: usize, to: usize) -> (r: Option<String>)
    requires
        chars@ == text@,
        from <= to <= chars.len(),
    ensures
        match r {
            Some(name) => group_in(chars@.subrange(from as int, to as int)) == Some(name@),
            None => group_in(chars@.subrange(from as int, to as int)) is None,
        },
{
    let open = find_char(chars, from, to, '(');
    if open < to {
        let close = find_char(chars, open, to, ')');
        proof {
            let rest = chars@.subrange(from as int, to as int);
            assert(rest.skip(open - from) =~= chars@.subrange(open as int, to as int));
        }
        if close < to {
            proof {
                let tail = chars@.subrange(open as int, to as int);
                assert(tail[0] == '(');
                assert(tail.subrange(1, close - open) =~= chars@.subrange(open + 1, close as int));
            }
            Some(text_between(text, open + 1, close))
        } else {
            None
        }
    } else {
        None
    }
}

/// The names of the enabled outputs in a dump.
pub fn outputs_in_text(text: &str) -> (r: Vec<String>)
    ensures
        texts_of(r@) == outputs_in(text@),
{
    let chars = chars_of(text);
    let marker = chars_of("Output ");
    let word = chars_of("Disabled");
    let n = chars.len();
    let mut found: Vec<String> = Vec::new();
    let mut current: Option<String> = None;
    let mut disabled = false;
    let mut at: usize = 0;
    let ghost start = Scan { found: Seq::empty(), current: None, disabled: false };
    proof {
        assert(chars@.skip(0) =~= text@);
        assert(texts_of(found@) =~= Seq::<Seq<char>>::empty());
    }
    while at < n
        invariant
            chars@ == text@,
            marker@ == "Output "@,
            word@ == "Disabled"@,
            n == chars.len(),
            at <= n,
            after_lines(start, lines_of(text@)) == after_lines(
                Scan {
                    found: texts_of(found@),
                    current: text_view(current),
                    disabled,
                },
                lines_of(chars@.skip(at as int)),
            ),
        decreases n - at,
    {
        let (end, next) = line_at(&chars, at);
        let ghost line = chars@.subrange(at as int, end as int);
        let ghost before = Scan {
            found: texts_of(found@),
            current: text_view(current),
            disabled,
        };
        proof {
            let lines = lines_of(chars@.skip(at as int));
            assert(lines[0] == line);
            assert(lines.drop_first() =~= lines_of(chars@.skip(next as int)));
        }
        if range_has_prefix(&chars, at, end, &marker) {
            if !disabled {
                match &current {
                    Some(name) => {
                        let ghost kept = texts_of(found@);
                        found.push(name.clone());
                        proof {
                            assert(texts_of(found@) =~= kept.push(name@));
                        }
                    },
                    None => {},
                }
            }
            proof {
                assert(line.skip(marker@.len() as int) =~= chars@.subrange(
                    at + marker@.len(),
                    end as int,
                ));
            }
            match group_between(text, &chars, at + marker.len(), end) {
                Some(name) => {
                    current = Some(name);
                    disabled = false;
                },
                None => {},
            }
        } else {
            let (a, b) = trim_range(&chars, at, end);
            if range_is(&chars, a, b, &word) {
                disabled = true;
            }
        }
        at = next;
    }
    proof {
        assert(chars@.skip(n as int) =~= Seq::<char>::empty());
    }
    if !disabled {
        match current {
            Some(name) => {
                let ghost kept = texts_of(found@);
                let ghost last = name@;
                found.push(name);
                proof {
                    assert(texts_of(found@) =~= kept.push(last));
                }
            },
            None => {},
        }
    }
    found
}

/// The names of the enabled outputs in an answer that is a dump.
pub fn parse_niri_outputs_text(stdout: &[u8]) -> (r: Result<Vec<String>, DmsAwwwError>)
    ensures
        names_view(r) == some_enabled(outputs_in(decoded(stdout@))),
{
    let text = decode_lossy(stdout);
    let names = outputs_in_text(text.as_str());
    if names.len() == 0 {
        assert(texts_of(names@).len() == 0);
        Err(DmsAwwwError::NoMonitorsDetected)
    } else {
        assert(texts_of(names@).len() > 0);
        Ok(names)
    }
}

impl NiriClient {
    /// What follows the first run of the query: the outputs that its answer
    /// names, as JSON or else as a dump; where it names none, or could not be
    /// run, the query is to be run in its older form.
    pub fn detect_outputs(first: &CommandRun) -> (r: DetectStep)
        ensures
            match *first {
                CommandRun::Failed(_) => r is AskLegacy,
                CommandRun::Finished { success, stdout, stderr } => match found_in(stdout@) {
                    Some(names) => r matches DetectStep::Found(list) && texts_of(list@) == names,
                    None => r is AskLegacy,
                },
            },
    {
        match first {
            CommandRun::Failed(_) => DetectStep::AskLegacy,
            CommandRun::Finished { success: _, stdout, stderr: _ } => {
                match parse_niri_outputs(stdout.as_slice()) {
                    Ok(names) => DetectStep::Found(names),
                    Err(_) => match parse_niri_outputs_text(stdout.as_slice()) {
                        Ok(names) => DetectStep::Found(names),
                        Err(_) => DetectStep::AskLegacy,
                    },
                }
            },
        }
    }

    /// As `detect_outputs`, but a query that could not be run is a failure.
    pub fn detect_outputs_sync(first: &CommandRun) -> (r: DetectStep)
        ensures
            match *first {
                CommandRun::Failed(why) => r matches DetectStep::Failed(e) && e@ == ErrorView::Io(
                    why@,
                ),
                CommandRun::Finished { success, stdout, stderr } => match found_in(stdout@) {
                    Some(names) => r matches DetectStep::Found(list) && texts_of(list@) == names,
                    None => r is AskLegacy,
                },
            },
    {
        match first {
            CommandRun::Failed(why) => DetectStep::Failed(DmsAwwwError::Io(why.clone())),
            CommandRun::Finished { .. } => NiriClient::detect_outputs(first),
        }
    }

    /// The answer of the query in its older form: the enabled outputs of its
    /// JSON, or why there are none.
    pub fn detect_outputs_legacy(second: &CommandRun) -> (r: Result<Vec<String>, DmsAwwwError>)
        ensures
            legacy_answer(*second, names_view(r)),
    {
        match second {
            CommandRun::Failed(why) => Err(DmsAwwwError::Io(why.clone())),
            CommandRun::Finished { success, stdout, stderr } => {
                if *success {
                    parse_niri_outputs(stdout.as_slice())
                } else {
                    Err(NiriClient::query_failure(stderr.as_slice()))
                }
            },
        }
    }

    /// The failure that reports a query which ended badly, with what the
    /// query wrote to its error stream.
    fn query_failure(stderr: &[u8]) -> (r: DmsAwwwError)
        ensures
            r@ == query_failed(stderr@),
    {
        let said = decode_lossy(stderr);
        let mut message = String::from_str("niri msg outputs failed: ");
        message.append(said.as_str());
        DmsAwwwError::NiriIpc(message)
    }

    /// Whether the compositor runs: the query ran and ended well.
    pub fn is_running(run: &CommandRun) -> (r: bool)
        ensures
            r == (*run matches CommandRun::Finished { success, .. } && success),
    {
        match run {
            CommandRun::Failed(_) => false,
            CommandRun::Finished { success, .. } => *success,
        }
    }

    /// Every output that the query's answer describes.
    pub fn get_outputs(run: &CommandRun) -> (r: Result<Vec<NiriOutput>, DmsAwwwError>)
        ensures
            match *run {
                CommandRun::Failed(why) => r matches Err(e) && e@ == ErrorView::Io(why@),
                CommandRun::Finished { success, stdout, stderr } => if success {
                    match outputs_in_document(stdout@) {
                        Some(outputs) => r matches Ok(list) && output_views(list@) == outputs,
                        None => r matches Err(e) && e@ is Json,
                    }
                } else {
                    r matches Err(e) && e@ == query_failed(stderr@)
                },
            },
    {
        match run {
            CommandRun::Failed(why) => Err(DmsAwwwError::Io(why.clone())),
            CommandRun::Finished { success, stdout, stderr } => {
                if *success {
                    let value = parse_bytes(stdout.as_slice())?;
                    NiriOutput::list_from_json(&value)
                } else {
                    Err(NiriClient::query_failure(stderr.as_slice()))
                }
            },
        }
    }
}

/// Whether the compositor has to be asked before the monitors are known.
pub fn needs_detection(explicit: &Vec<String>, auto_detect: bool) -> (r: bool)
    ensures
        r == (explicit@.len() == 0 && auto_detect),
{
    explicit.len() == 0 && auto_detect
}

/// The monitors that are addressed. `detected` is what the compositor
/// named, or `None` where it was not asked or the query failed.
pub fn get_monitor_outputs(
    explicit_outputs: Vec<String>,
    auto_detect: bool,
    detected: Option<Vec<String>>,
) -> (r: Result<Vec<String>, DmsAwwwError>)
    ensures
        names_view(r) == resolved(
            texts_of(explicit_outputs@),
            auto_detect,
            match detected {
                Some(names) => Some(texts_of(names@)),
                None => None,
            },
        ),
{
    if explicit_outputs.len() > 0 {
        assert(texts_of(explicit_outputs@).len() > 0);
        return Ok(explicit_outputs);
    }
    assert(texts_of(explicit_outputs@).len() == 0);
    if auto_detect {
        match detected {
            Some(names) => {
                if names.len() > 0 {
                    assert(texts_of(names@).len() > 0);
                    return Ok(names);
                }
                assert(texts_of(names@).len() == 0);
            },
            None => {},
        }
        let mut fallback: Vec<String> = Vec::new();
        fallback.push(String::from_str("ALL"));
        assert(texts_of(fallback@) =~= seq!["ALL"@]);
        return Ok(fallback);
    }
    Err(DmsAwwwError::NoMonitorsDetected)
}

} // verus!
