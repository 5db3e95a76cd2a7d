//! JSON values, as far as the decoding of actions reads them. The parsing and
//! the values themselves are `serde_json`'s.

use vstd::prelude::*;

verus! {

/// A parsed JSON value, carried as it came.
#[verifier::external_type_specification]
#[verifier::external_body]
pub struct ExJson(serde_json::Value);

/// What a JSON value holds. Of a number only this is kept: the number itself
/// where it is written as a non-negative integer below 2^64, and that it is
/// none such otherwise. A number written with a fraction or an exponent, as
/// `1.0` or `1e2`, is none such.
pub enum JsonView {
    Null,
    Bool(bool),
    Number(Option<u64>),
    String(Seq<char>),
    Array(Seq<JsonView>),
    Object(Map<Seq<char>, JsonView>),
}

/// What a parsed value holds.
pub uninterp spec fn json_value(value: serde_json::Value) -> JsonView;

/// What a text holds when it is read as JSON; `None` where it is no JSON text.
pub uninterp spec fn json_text(text: Seq<char>) -> Option<JsonView>;

/// What a list of parsed values holds.
pub open spec fn json_values(items: Seq<serde_json::Value>) -> Seq<JsonView> {
    items.map_values(|v: serde_json::Value| json_value(v))
}

/// The member `key` of a JSON object; `None` where the value is no object or
/// has no such member.
pub open spec fn member_of(value: JsonView, key: Seq<char>) -> Option<JsonView> {
    match value {
        JsonView::Object(members) => if members.contains_key(key) {
            Some(members[key])
        } else {
            None
        },
        _ => None,
    }
}

/// `serde_json::from_str`, reading a whole text as one JSON value.
///
/// Trusted, not proved: whether a text parses and what it then holds depends
/// on the text alone, so it is given the name [`json_text`]; an error, handed
/// on as its text, comes exactly where that name is `None`.
#[verifier::external_body]
pub(crate) fn parse(text: &str) -> (res: Result<serde_json::Value, String>)
    ensures
        res matches Ok(value) ==> json_text(text@) == Some(json_value(value)),
        res is Err ==> json_text(text@) is None,
{
    serde_json::from_str::<serde_json::Value>(text).map_err(|e| e.to_string())
}

/// `serde_json::Value::get` with a string key.
///
/// Trusted, not proved: it hands out the member of that name where the value
/// is an object that has one, and nothing otherwise.
#[verifier::external_body]
pub(crate) fn member<'a>(value: &'a serde_json::Value, key: &str) -> (res: Option<
    &'a serde_json::Value,
>)
    ensures
        match member_of(json_value(*value), key@) {
            Some(held) => res matches Some(found) && json_value(*found) == held,
            None => res is None,
        },
{
    value.get(key)
}

/// `serde_json::Value::as_str`.
///
/// Trusted, not proved: it hands out the text where the value is a string,
/// and nothing otherwise.
#[verifier::external_body]
pub(crate) fn as_text<'a>(value: &'a serde_json::Value) -> (res: Option<&'a str>)
    ensures
        match json_value(*value) {
            JsonView::String(held) => res matches Some(text) && text@ == held,
            _ => res is None,
        },
{
    value.as_str()
}

/// `serde_json::Value::as_array`.
///
/// Trusted, not proved: it hands out the items where the value is an array,
/// and nothing otherwise.
#[verifier::external_body]
pub(crate) fn as_items<'a>(value: &'a serde_json::Value) -> (res: Option<
    &'a Vec<serde_json::Value>,
>)
    ensures
        match json_value(*value) {
            JsonView::Array(held) => res matches Some(items) && json_values(items@) == held,
            _ => res is None,
        },
{
    value.as_array()
}

/// `serde_json::Value::as_u64`.
///
/// Trusted, not proved: it hands out the number where the value is a number
/// written as a non-negative integer below 2^64, and nothing otherwise.
#[verifier::external_body]
pub(crate) fn as_number(value: &serde_json::Value) -> (res: Option<u64>)
    ensures
        res == (match json_value(*value) {
            JsonView::Number(held) => held,
            _ => None,
        }),
{
    value.as_u64()
}

} // verus!
