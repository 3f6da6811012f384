//! JSON, as far as the gateway needs it. Parsing and printing are
//! `serde_json`'s work; this file holds what the library assumes of it.
//!
//! A request body is read once, into the members of its top-level object.
//! A document that is sent out is a `serde_json::Value`, known here by the
//! text that it prints as.

use serde_json::Value;
use vstd::prelude::*;

verus! {

/// `serde_json::Value`, carried through as it is: nothing is known of a
/// value but what the functions below say of its text.
#[verifier::external_type_specification]
#[verifier::external_body]
pub struct ExValue(serde_json::Value);

/// A member of a request body's top-level object, as far as requests are
/// read: strings, numbers and booleans.
#[derive(Debug)]
pub enum JsonField {
    /// A string.
    Text(String),
    /// A number; the value where it is an integer from 0 to `u64::MAX`.
    Number(Option<u64>),
    /// `true` or `false`.
    Flag(bool),
    /// `null`, an array or an object.
    Other,
}

/// A `JsonField` in contracts.
pub enum FieldView {
    Text(Seq<char>),
    Number(Option<u64>),
    Flag(bool),
    Other,
}

impl View for JsonField {
    type V = FieldView;

    open spec fn view(&self) -> FieldView {
        match self {
            JsonField::Text(text) => FieldView::Text(text@),
            JsonField::Number(n) => FieldView::Number(*n),
            JsonField::Flag(b) => FieldView::Flag(*b),
            JsonField::Other => FieldView::Other,
        }
    }
}

/// The members of an object, in contracts: keys with their values.
pub type Members = Seq<(Seq<char>, FieldView)>;

/// The members that a vector of them stands for.
pub open spec fn members_view(members: Seq<(String, JsonField)>) -> Members {
    members.map_values(|m: (String, JsonField)| (m.0@, m.1@))
}

/// What a parsed body stands for.
pub open spec fn parsed_view(parsed: Option<Vec<(String, JsonField)>>) -> Option<Members> {
    match parsed {
        Some(members) => Some(members_view(members@)),
        None => None,
    }
}

/// The members of the JSON object that `body` spells, each key once;
/// `None` where `serde_json` does not read `body` as one JSON document, or
/// the document is not an object.
pub uninterp spec fn json_object_members(body: Seq<u8>) -> Option<Members>;

/// The text that a JSON value prints as, in `serde_json`'s compact form.
pub uninterp spec fn json_text(v: Value) -> Seq<char>;

/// The text of the JSON string that holds `s`: quoted and escaped.
pub uninterp spec fn json_string_text(s: Seq<char>) -> Seq<char>;

/// The text of the JSON number `n`.
pub uninterp spec fn json_unsigned_text(n: u64) -> Seq<char>;

/// The text of the JSON object with these keys and member texts. Members
/// print in the order of their keys; of two with one key the later stays.
pub uninterp spec fn json_object_text(members: Seq<(Seq<char>, Seq<char>)>) -> Seq<char>;

/// Whether `doc` is the text of a JSON object.
pub uninterp spec fn json_text_is_object(doc: Seq<char>) -> bool;

/// Whether `doc` is the text of JSON's `null`.
pub uninterp spec fn json_text_is_null(doc: Seq<char>) -> bool;

/// The text of the object `doc` once it has the member `key` with the text
/// `member`, in place of what it had under that key; `null` counts as the
/// empty object.
pub uninterp spec fn json_text_with_member(
    doc: Seq<char>,
    key: Seq<char>,
    member: Seq<char>,
) -> Seq<char>;

/// `serde_json::from_slice` to a `Value`, and the members of the object
/// that came out, each turned into a `JsonField`. The result depends on
/// `body` alone.
#[verifier::external_body]
pub(crate) fn parse_object(body: &[u8]) -> (parsed: Option<Vec<(String, JsonField)>>)
    ensures
        parsed_view(parsed) == json_object_members(body@),
{
    match serde_json::from_slice::<Value>(body) {
        Ok(Value::Object(map)) => Some(map.into_iter().map(|(key, value)| (key, match value {
            Value::String(text) => JsonField::Text(text),
            Value::Number(number) => JsonField::Number(number.as_u64()),
            Value::Bool(flag) => JsonField::Flag(flag),
            _ => JsonField::Other,
        })).collect()),
        _ => None,
    }
}

/// `Value::from(&str)`: the JSON string that holds `s`.
#[verifier::external_body]
pub(crate) fn json_string(s: &str) -> (v: Value)
    ensures
        json_text(v) == json_string_text(s@),
{
    Value::from(s)
}

/// `Value::from(u64)`: the JSON number `n`.
#[verifier::external_body]
pub(crate) fn json_unsigned(n: u64) -> (v: Value)
    ensures
        json_text(v) == json_unsigned_text(n),
{
    Value::from(n)
}

/// `Value::from_iter` over keys and values: the JSON object with these
/// members.
#[verifier::external_body]
pub(crate) fn json_object(members: Vec<(String, Value)>) -> (v: Value)
    ensures
        json_text(v) == json_object_text(
            members@.map_values(|m: (String, Value)| (m.0@, json_text(m.1))),
        ),
{
    members.into_iter().collect()
}

/// `Value::is_object`.
#[verifier::external_body]
pub(crate) fn json_is_object(v: &Value) -> (is: bool)
    ensures
        is == json_text_is_object(json_text(*v)),
{
    v.is_object()
}

/// `Value::is_null`.
#[verifier::external_body]
pub(crate) fn json_is_null(v: &Value) -> (is: bool)
    ensures
        is == json_text_is_null(json_text(*v)),
{
    v.is_null()
}

/// `value[key] = member`: sets a member of an object, or makes `null` the
/// object with that one member. On any other value the call panics, so
/// those are left out.
#[verifier::external_body]
pub(crate) fn json_set_member(v: &mut Value, key: &str, member: Value)
    requires
        json_text_is_object(json_text(*old(v))) || json_text_is_null(json_text(*old(v))),
    ensures
        json_text(*final(v)) == json_text_with_member(
            json_text(*old(v)),
            key@,
            json_text(member),
        ),
{
    v[key] = member;
}

/// `Value::to_string`: the value's compact text.
#[verifier::external_body]
pub(crate) fn json_to_string(v: &Value) -> (text: String)
    ensures
        text@ == json_text(*v),
{
    v.to_string()
}

} // verus!
