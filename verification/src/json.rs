//! JSON bodies of Web API requests.

use serde_json::Value;
use vstd::prelude::*;

verus! {

/// A JSON value of `serde_json`, built through the functions below.
#[verifier::external_type_specification]
#[verifier::external_body]
pub struct ExValue(serde_json::Value);

/// What a JSON value holds.
pub enum Json {
    Text(Seq<char>),
    Number(nat),
    Bool(bool),
    List(Seq<Json>),
    Object(Map<Seq<char>, Json>),
}

/// The contents of a JSON value that was built from texts, counts, truth values,
/// lists of texts and objects. What other values hold is left open.
pub uninterp spec fn json_of(value: serde_json::Value) -> Json;

/// Calls `Value::from` for a string slice: a JSON string of its characters.
#[verifier::external_body]
pub(crate) fn json_text(text: &str) -> (r: Value)
    ensures
        json_of(r) == Json::Text(text@),
{
    Value::from(text)
}

/// Calls `Value::from` for an index: a JSON number.
#[verifier::external_body]
pub(crate) fn json_number(n: usize) -> (r: Value)
    ensures
        json_of(r) == Json::Number(n as nat),
{
    Value::from(n)
}

/// Calls `Value::from` for a truth value.
#[verifier::external_body]
pub(crate) fn json_bool(b: bool) -> (r: Value)
    ensures
        json_of(r) == Json::Bool(b),
{
    Value::from(b)
}

/// The JSON list of strings for a list of texts.
pub open spec fn text_list(items: Seq<Seq<char>>) -> Json {
    Json::List(items.map_values(|t: Seq<char>| Json::Text(t)))
}

/// Calls `Value::from` for a vector of strings: a JSON array of JSON strings
/// in the same order.
#[verifier::external_body]
pub(crate) fn json_list(items: Vec<String>) -> (r: Value)
    ensures
        json_of(r) == text_list(crate::text::texts(items@)),
{
    Value::from(items)
}

/// Calls `serde_json::Map::new`: an object without members.
#[verifier::external_body]
pub(crate) fn json_object() -> (r: Value)
    ensures
        json_of(r) == Json::Object(Map::empty()),
{
    Value::Object(serde_json::Map::new())
}

/// Assigns through `Value::index_mut`: in an object, the member `key` now is
/// `value`, and all other members stay.
#[verifier::external_body]
pub(crate) fn json_set(object: &mut Value, key: &str, value: Value)
    requires
        json_of(*old(object)) is Object,
    ensures
        json_of(*final(object)) == Json::Object(
            json_of(*old(object))->Object_0.insert(key@, json_of(value)),
        ),
{
    object[key] = value;
}

/// A JSON list of texts holds each of them as a string, in their order.
pub proof fn law_a_list_holds_its_texts(items: Seq<Seq<char>>)
    ensures
        text_list(items) is List,
        text_list(items)->List_0.len() == items.len(),
        forall|i: int|
            0 <= i < items.len() ==> #[trigger] text_list(items)->List_0[i] == Json::Text(items[i]),
{
}

} // verus!
