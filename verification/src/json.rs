//! JSON documents as a tree of plain values, and the readers that take the
//! members of an object by name and by kind.
//!
//! The text is parsed by `serde_json`; everything that is read out of the
//! tree is this module's own.

use crate::error::{DmsAwwwError, ErrorView};
use crate::text::same_text;
use vstd::prelude::*;
use vstd::string::StringSliceAdditionalSpecFns;

verus! {

/// A JSON number: an integer where it is one, else its text.
#[derive(Debug)]
pub enum JsonNumber {
    /// An integer that is not negative.
    Unsigned(u64),
    /// A negative integer.
    Signed(i64),
    /// A number with a fraction or an exponent, as it is written.
    Real(String),
}

/// One member of a JSON object.
#[derive(Debug)]
pub struct JsonMember {
    pub name: String,
    pub value: JsonValue,
}

/// A JSON document. The members of an object stand in the order of the text.
#[derive(Debug)]
pub enum JsonValue {
    Null,
    Bool(bool),
    Number(JsonNumber),
    Text(String),
    Array(Vec<JsonValue>),
    Object(Vec<JsonMember>),
}

/// `serde_json::Error`: the parser's failure, of which nothing is known but
/// its text.
#[verifier::external_type_specification]
#[verifier::external_body]
pub struct ExJsonError(serde_json::Error);

/// `serde_json::Number`: a number as the parser holds it.
#[verifier::external_type_specification]
#[verifier::external_body]
pub struct ExJsonNumber(serde_json::Number);

/// `serde_json::Value`: a document as the parser holds it.
#[verifier::external_type_specification]
#[verifier::external_body]
pub struct ExJsonTree(serde_json::Value);

/// The document that `serde_json` reads from a text in UTF-8, or `None`
/// where the text is no JSON document.
pub uninterp spec fn json_document(bytes: Seq<u8>) -> Option<JsonValue>;

/// The document that a text holds.
pub open spec fn document_in(text: Seq<char>) -> Option<JsonValue> {
    json_document(vstd::utf8::encode_utf8(text))
}

/// The value of the first member named `name`.
pub open spec fn member_of(members: Seq<JsonMember>, name: Seq<char>) -> Option<JsonValue>
    decreases members.len(),
{
    if members.len() == 0 {
        None
    } else if members[0].name@ == name {
        Some(members[0].value)
    } else {
        member_of(members.drop_first(), name)
    }
}

/// A member that may be absent or null and else holds a text. The outer
/// `None` stands for a value of another kind.
pub open spec fn optional_text_in(value: Option<JsonValue>) -> Option<Option<Seq<char>>> {
    match value {
        None => Some(None),
        Some(JsonValue::Null) => Some(None),
        Some(JsonValue::Text(text)) => Some(Some(text@)),
        Some(_) => None,
    }
}

/// A member that may be absent or null and else holds a truth value. The
/// outer `None` stands for a value of another kind.
pub open spec fn optional_flag_in(value: Option<JsonValue>) -> Option<Option<bool>> {
    match value {
        None => Some(None),
        Some(JsonValue::Null) => Some(None),
        Some(JsonValue::Bool(flag)) => Some(Some(flag)),
        Some(_) => None,
    }
}

/// A member that holds a text and is empty where it is absent.
pub open spec fn text_in(value: Option<JsonValue>) -> Option<Seq<char>> {
    match value {
        None => Some(Seq::empty()),
        Some(JsonValue::Text(text)) => Some(text@),
        Some(_) => None,
    }
}

/// A member that holds a truth value and is false where it is absent.
pub open spec fn flag_in(value: Option<JsonValue>) -> Option<bool> {
    match value {
        None => Some(false),
        Some(JsonValue::Bool(flag)) => Some(flag),
        Some(_) => None,
    }
}

/// A member that must be there and hold a text.
pub open spec fn required_text_in(value: Option<JsonValue>) -> Option<Seq<char>> {
    match value {
        Some(JsonValue::Text(text)) => Some(text@),
        _ => None,
    }
}

/// A member that must be there and hold an integer from 0 to 4294967295.
pub open spec fn required_u32_in(value: Option<JsonValue>) -> Option<u32> {
    match value {
        Some(JsonValue::Number(JsonNumber::Unsigned(n))) => if n <= u32::MAX {
            Some(n as u32)
        } else {
            None
        },
        _ => None,
    }
}

/// A member that must be there and hold an integer from -2147483648 to
/// 2147483647.
pub open spec fn required_i32_in(value: Option<JsonValue>) -> Option<i32> {
    match value {
        Some(JsonValue::Number(JsonNumber::Unsigned(n))) => if n <= i32::MAX {
            Some(n as i32)
        } else {
            None
        },
        Some(JsonValue::Number(JsonNumber::Signed(n))) => if i32::MIN <= n <= i32::MAX {
            Some(n as i32)
        } else {
            None
        },
        _ => None,
    }
}

/// `serde_json::Number`'s `as_u64`, `as_i64` and `to_string`: the number as
/// an unsigned integer where it is one, else as a signed one, else its text.
#[verifier::external_body]
fn number_of(number: &serde_json::Number) -> JsonNumber {
    if let Some(unsigned) = number.as_u64() {
        JsonNumber::Unsigned(unsigned)
    } else if let Some(signed) = number.as_i64() {
        JsonNumber::Signed(signed)
    } else {
        JsonNumber::Real(number.to_string())
    }
}

/// The tree of a `serde_json::Value`, variant by variant.
#[verifier::external_body]
fn tree_of(value: serde_json::Value) -> JsonValue {
    match value {
        serde_json::Value::Null => JsonValue::Null,
        serde_json::Value::Bool(flag) => JsonValue::Bool(flag),
        serde_json::Value::Number(number) => JsonValue::Number(number_of(&number)),
        serde_json::Value::String(text) => JsonValue::Text(text),
        serde_json::Value::Array(items) => JsonValue::Array(
            items.into_iter().map(tree_of).collect(),
        ),
        serde_json::Value::Object(members) => JsonValue::Object(
            members.into_iter().map(|(name, v)| JsonMember { name, value: tree_of(v) }).collect(),
        ),
    }
}

/// `serde_json::from_slice`: the document that the bytes hold, which depends
/// on the bytes alone, or the parser's error where they hold none.
#[verifier::external_body]
fn parse_tree(bytes: &[u8]) -> (r: Result<JsonValue, serde_json::Error>)
    ensures
        r is Ok <==> json_document(bytes@) is Some,
        r matches Ok(v) ==> json_document(bytes@) == Some(v),
{
    serde_json::from_slice::<serde_json::Value>(bytes).map(tree_of)
}

/// The failure that reports a member of the wrong kind: it names the member
/// and the kind that was expected.
fn mismatch(name: &str, expected: &str) -> (r: DmsAwwwError)
    ensures
        r@ == ErrorView::Json("invalid value for '"@ + name@ + "': expected "@ + expected@),
{
    let mut message = String::from_str("invalid value for '");
    message.append(name);
    message.append("': expected ");
    message.append(expected);
    DmsAwwwError::Json(message)
}

/// Reads a JSON document from bytes in UTF-8.
pub fn parse_bytes(bytes: &[u8]) -> (r: Result<JsonValue, DmsAwwwError>)
    ensures
        match r {
            Ok(v) => json_document(bytes@) == Some(v),
            Err(e) => json_document(bytes@) is None && e@ is Json,
        },
{
    match parse_tree(bytes) {
        Ok(v) => Ok(v),
        Err(e) => Err(DmsAwwwError::Json(e.to_string())),
    }
}

/// Reads a JSON document from a text.
pub fn parse_text(text: &str) -> (r: Result<JsonValue, DmsAwwwError>)
    ensures
        match r {
            Ok(v) => document_in(text@) == Some(v),
            Err(e) => document_in(text@) is None && e@ is Json,
        },
{
    parse_bytes(text.as_bytes())
}

/// The value of the first member named `name`.
pub fn find_member<'a>(members: &'a Vec<JsonMember>, name: &str) -> (r: Option<&'a JsonValue>)
    ensures
        match r {
            Some(v) => member_of(members@, name@) == Some(*v),
            None => member_of(members@, name@) is None,
        },
{
    let mut i: usize = 0;
    proof {
        assert(members@.skip(0) =~= members@);
    }
    while i < members.len()
        invariant
            i <= members.len(),
            member_of(members@, name@) == member_of(members@.skip(i as int), name@),
        decreases members.len() - i,
    {
        proof {
            assert(members@.skip(i as int).drop_first() =~= members@.skip(i + 1));
        }
        if same_text(members[i].name.as_str(), name) {
            return Some(&members[i].value);
        }
        i += 1;
    }
    None
}

/// Reads a member that may be absent or null and else holds a text.
pub fn optional_text(members: &Vec<JsonMember>, name: &str) -> (r: Result<
    Option<String>,
    DmsAwwwError,
>)
    ensures
        match r {
            Ok(Some(text)) => optional_text_in(member_of(members@, name@)) == Some(Some(text@)),
            Ok(None) => optional_text_in(member_of(members@, name@)) == Some(
                None::<Seq<char>>,
            ),
            Err(e) => optional_text_in(member_of(members@, name@)) is None && e@ is Json,
        },
{
    match find_member(members, name) {
        None => Ok(None),
        Some(JsonValue::Null) => Ok(None),
        Some(JsonValue::Text(text)) => Ok(Some(text.clone())),
        Some(_) => Err(mismatch(name, "a string")),
    }
}

/// Reads a member that may be absent or null and else holds a truth value.
pub fn optional_flag(members: &Vec<JsonMember>, name: &str) -> (r: Result<
    Option<bool>,
    DmsAwwwError,
>)
    ensures
        match r {
            Ok(flag) => optional_flag_in(member_of(members@, name@)) == Some(flag),
            Err(e) => optional_flag_in(member_of(members@, name@)) is None && e@ is Json,
        },
{
    match find_member(members, name) {
        None => Ok(None),
        Some(JsonValue::Null) => Ok(None),
        Some(JsonValue::Bool(flag)) => Ok(Some(*flag)),
        Some(_) => Err(mismatch(name, "a boolean")),
    }
}

/// Reads a member that holds a text and is empty where it is absent.
pub fn text_or_empty(members: &Vec<JsonMember>, name: &str) -> (r: Result<String, DmsAwwwError>)
    ensures
        match r {
            Ok(text) => text_in(member_of(members@, name@)) == Some(text@),
            Err(e) => text_in(member_of(members@, name@)) is None && e@ is Json,
        },
{
    match find_member(members, name) {
        None => Ok(String::new()),
        Some(JsonValue::Text(text)) => Ok(text.clone()),
        Some(_) => Err(mismatch(name, "a string")),
    }
}

/// Reads a member that holds a truth value and is false where it is absent.
pub fn flag_or_false(members: &Vec<JsonMember>, name: &str) -> (r: Result<bool, DmsAwwwError>)
    ensures
        match r {
            Ok(flag) => flag_in(member_of(members@, name@)) == Some(flag),
            Err(e) => flag_in(member_of(members@, name@)) is None && e@ is Json,
        },
{
    match find_member(members, name) {
        None => Ok(false),
        Some(JsonValue::Bool(flag)) => Ok(*flag),
        Some(_) => Err(mismatch(name, "a boolean")),
    }
}

/// Reads a member that must be there and hold a text.
pub fn required_text(members: &Vec<JsonMember>, name: &str) -> (r: Result<String, DmsAwwwError>)
    ensures
        match r {
            Ok(text) => required_text_in(member_of(members@, name@)) == Some(text@),
            Err(e) => required_text_in(member_of(members@, name@)) is None && e@ is Json,
        },
{
    match find_member(members, name) {
        Some(JsonValue::Text(text)) => Ok(text.clone()),
        _ => Err(mismatch(name, "a string")),
    }
}

/// Reads a member that must be there and hold an integer that fits `u32`.
pub fn required_u32(members: &Vec<JsonMember>, name: &str) -> (r: Result<u32, DmsAwwwError>)
    ensures
        match r {
            Ok(n) => required_u32_in(member_of(members@, name@)) == Some(n),
            Err(e) => required_u32_in(member_of(members@, name@)) is None && e@ is Json,
        },
{
    match find_member(members, name) {
        Some(JsonValue::Number(JsonNumber::Unsigned(n))) => {
            if *n <= 0xffff_ffff {
                Ok(*n as u32)
            } else {
                Err(mismatch(name, "an unsigned 32-bit integer"))
            }
        },
        _ => Err(mismatch(name, "an unsigned 32-bit integer")),
    }
}

/// Reads a member that must be there and hold an integer that fits `i32`.
pub fn required_i32(members: &Vec<JsonMember>, name: &str) -> (r: Result<i32, DmsAwwwError>)
    ensures
        match r {
            Ok(n) => required_i32_in(member_of(members@, name@)) == Some(n),
            Err(e) => required_i32_in(member_of(members@, name@)) is None && e@ is Json,
        },
{
    match find_member(members, name) {
        Some(JsonValue::Number(JsonNumber::Unsigned(n))) => {
            if *n <= 0x7fff_ffff {
                Ok(*n as i32)
            } else {
                Err(mismatch(name, "a 32-bit integer"))
            }
        },
        Some(JsonValue::Number(JsonNumber::Signed(n))) => {
            if -0x8000_0000 <= *n && *n <= 0x7fff_ffff {
                Ok(*n as i32)
            } else {
                Err(mismatch(name, "a 32-bit integer"))
            }
        },
        _ => Err(mismatch(name, "a 32-bit integer")),
    }
}

/// What a `JsonNumber` holds, with its text as a sequence of characters.
pub enum NumberView {
    Unsigned(u64),
    Signed(i64),
    Real(Seq<char>),
}

impl View for JsonNumber {
    type V = NumberView;

    open spec fn view(&self) -> NumberView {
        match self {
            JsonNumber::Unsigned(n) => NumberView::Unsigned(*n),
            JsonNumber::Signed(n) => NumberView::Signed(*n),
            JsonNumber::Real(text) => NumberView::Real(text@),
        }
    }
}

impl JsonNumber {
    /// A copy of the number.
    pub fn duplicate(&self) -> (r: JsonNumber)
        ensures
            r@ == self@,
    {
        match self {
            JsonNumber::Unsigned(n) => JsonNumber::Unsigned(*n),
            JsonNumber::Signed(n) => JsonNumber::Signed(*n),
            JsonNumber::Real(text) => JsonNumber::Real(text.clone()),
        }
    }
}

/// A member that may be absent or null and else holds a number. The outer
/// `None` stands for a value of another kind.
pub open spec fn optional_number_in(value: Option<JsonValue>) -> Option<Option<NumberView>> {
    match value {
        None => Some(None),
        Some(JsonValue::Null) => Some(None),
        Some(JsonValue::Number(number)) => Some(Some(number@)),
        Some(_) => None,
    }
}

/// The view of a number that may be absent.
pub open spec fn number_view(number: Option<JsonNumber>) -> Option<NumberView> {
    match number {
        Some(n) => Some(n@),
        None => None,
    }
}

/// Reads a member that may be absent or null and else holds a number.
pub fn optional_number(members: &Vec<JsonMember>, name: &str) -> (r: Result<
    Option<JsonNumber>,
    DmsAwwwError,
>)
    ensures
        match r {
            Ok(number) => optional_number_in(member_of(members@, name@)) == Some(
                number_view(number),
            ),
            Err(e) => optional_number_in(member_of(members@, name@)) is None && e@ is Json,
        },
{
    match find_member(members, name) {
        None => Ok(None),
        Some(JsonValue::Null) => Ok(None),
        Some(JsonValue::Number(number)) => Ok(Some(number.duplicate())),
        Some(_) => Err(mismatch(name, "a number")),
    }
}

/// The failure that reports a value of the wrong kind: it names what was
/// expected.
pub fn unexpected(what: &str) -> (r: DmsAwwwError)
    ensures
        r@ == ErrorView::Json("expected "@ + what@),
{
    let mut message = String::from_str("expected ");
    message.append(what);
    DmsAwwwError::Json(message)
}

} // verus!
