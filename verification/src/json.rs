//! JSON values (`serde_json::Value`) and their model: every value stands
//! for a `JsonModel` (`json_model`), and each access below is stated over it.

use vstd::prelude::*;
use crate::error::json_error_display;
use crate::text::decimal;

verus! {

/// What a JSON value holds. A number carries its value when it is an
/// unsigned integer (`as_u64`) and its text (`Display`); an object maps
/// each member name to its value (serde_json keeps members by name, one
/// value per name).
pub enum JsonModel {
    Null,
    Bool(bool),
    Number(Option<u64>, Seq<char>),
    Str(Seq<char>),
    Array(Seq<JsonModel>),
    Object(Map<Seq<char>, JsonModel>),
}

/// The contents of a `serde_json::Value`, as the accesses below read and
/// write them.
pub uninterp spec fn json_model(v: serde_json::Value) -> JsonModel;

/// What `serde_json::from_str::<Value>` makes of a text: the value it
/// reads, or, when the text is not JSON (the crate's grammar and depth
/// limit), the `Display` text of its error.
pub uninterp spec fn json_parse(text: Seq<char>) -> Result<JsonModel, Seq<char>>;

/// `serde_json::to_string` of a value: its compact JSON text.
pub uninterp spec fn json_compact_text(v: JsonModel) -> Seq<char>;

/// Whether a text is JSON.
pub open spec fn json_valid(text: Seq<char>) -> bool {
    json_parse(text) is Ok
}

/// A JSON number made from an unsigned integer.
pub open spec fn json_u64(n: u64) -> JsonModel {
    JsonModel::Number(Some(n), decimal(n as nat))
}

/// The member `key` of an object; none for a missing member or a value
/// that is not an object (`Value::get`).
pub open spec fn member(v: JsonModel, key: Seq<char>) -> Option<JsonModel> {
    match v {
        JsonModel::Object(o) => if o.contains_key(key) {
            Some(o[key])
        } else {
            None
        },
        _ => None,
    }
}

/// `Value::as_u64`.
pub open spec fn as_u64_of(v: JsonModel) -> Option<u64> {
    match v {
        JsonModel::Number(n, _) => n,
        _ => None,
    }
}

/// `Value::as_bool`.
pub open spec fn as_bool_of(v: JsonModel) -> Option<bool> {
    match v {
        JsonModel::Bool(b) => Some(b),
        _ => None,
    }
}

/// `Value::as_str`.
pub open spec fn as_str_of(v: JsonModel) -> Option<Seq<char>> {
    match v {
        JsonModel::Str(s) => Some(s),
        _ => None,
    }
}

/// `Value::as_array`.
pub open spec fn as_array_of(v: JsonModel) -> Option<Seq<JsonModel>> {
    match v {
        JsonModel::Array(a) => Some(a),
        _ => None,
    }
}

/// The string member `key` of an object, if it is one.
pub open spec fn str_member(v: JsonModel, key: Seq<char>) -> Option<Seq<char>> {
    match member(v, key) {
        Some(m) => as_str_of(m),
        None => None,
    }
}

/// The boolean member `key` of an object, if it is one.
pub open spec fn bool_member(v: JsonModel, key: Seq<char>) -> Option<bool> {
    match member(v, key) {
        Some(m) => as_bool_of(m),
        None => None,
    }
}

/// The models of a list of values.
pub open spec fn json_models(vs: Seq<serde_json::Value>) -> Seq<JsonModel> {
    vs.map_values(|x: serde_json::Value| json_model(x))
}

/// `serde_json::to_string` of a value. Serializing a `Value` cannot fail
/// (its keys are strings), so the fallback `{}` is never taken.
#[verifier::external_body]
pub(crate) fn json_compact(v: &serde_json::Value) -> (r: String)
    ensures
        r@ == json_compact_text(json_model(*v)),
{
    serde_json::to_string(v).unwrap_or_else(|_| "{}".to_string())
}

/// `serde_json::Map::insert` on a JSON object (a member of that name is
/// replaced); any other value is left as it is (`as_object_mut` gives none).
#[verifier::external_body]
pub(crate) fn json_object_insert(v: &mut serde_json::Value, key: &str, item: serde_json::Value)
    ensures
        json_model(*old(v)) matches JsonModel::Object(o)
            ==> json_model(*final(v)) == JsonModel::Object(o.insert(key@, json_model(item))),
        !(json_model(*old(v)) is Object) ==> *final(v) == *old(v),
{
    if let Some(o) = v.as_object_mut() {
        o.insert(key.to_string(), item);
    }
}

/// An empty JSON object (`serde_json::Map::new`).
#[verifier::external_body]
pub(crate) fn json_empty_object() -> (r: serde_json::Value)
    ensures
        json_model(r) == JsonModel::Object(Map::empty()),
{
    serde_json::Value::Object(serde_json::Map::new())
}

/// A JSON string (`serde_json::Value::String`).
#[verifier::external_body]
pub(crate) fn json_text(s: &str) -> (r: serde_json::Value)
    ensures
        json_model(r) == JsonModel::Str(s@),
{
    serde_json::Value::String(s.to_string())
}

/// A JSON number (`serde_json::Value::from` of a `usize`): an unsigned
/// integer, written in decimal.
#[verifier::external_body]
pub(crate) fn json_count(n: usize) -> (r: serde_json::Value)
    ensures
        json_model(r) == json_u64(n as u64),
{
    serde_json::Value::from(n)
}

/// A JSON number (`serde_json::Value::from` of a `u64`): an unsigned
/// integer, written in decimal.
#[verifier::external_body]
pub(crate) fn json_count_u64(n: u64) -> (r: serde_json::Value)
    ensures
        json_model(r) == json_u64(n),
{
    serde_json::Value::from(n)
}

/// `serde_json::from_str` of a text into a value, with the crate's error.
#[verifier::external_body]
pub(crate) fn json_from_str(text: &str) -> (r: Result<serde_json::Value, serde_json::Error>)
    ensures
        r is Ok <==> json_parse(text@) is Ok,
        r matches Ok(v) ==> (json_parse(text@) matches Ok(m) && m == json_model(v)),
        r matches Err(e) ==> (json_parse(text@) matches Err(t) && t == json_error_display(e)),
{
    serde_json::from_str(text)
}

/// `Value::get` of a key (the member of an object), cloned.
#[verifier::external_body]
pub(crate) fn json_field(v: &serde_json::Value, key: &str) -> (r: Option<serde_json::Value>)
    ensures
        r is Some <==> member(json_model(*v), key@) is Some,
        r matches Some(x) ==> member(json_model(*v), key@) == Some(json_model(x)),
{
    v.get(key).cloned()
}

/// `Value::as_u64`.
#[verifier::external_body]
pub(crate) fn json_as_u64(v: &serde_json::Value) -> (r: Option<u64>)
    ensures
        r == as_u64_of(json_model(*v)),
{
    v.as_u64()
}

/// `Value::as_bool`.
#[verifier::external_body]
pub(crate) fn json_as_bool(v: &serde_json::Value) -> (r: Option<bool>)
    ensures
        r == as_bool_of(json_model(*v)),
{
    v.as_bool()
}

/// `Value::as_str`, copied.
#[verifier::external_body]
pub(crate) fn json_as_str(v: &serde_json::Value) -> (r: Option<String>)
    ensures
        r is Some <==> as_str_of(json_model(*v)) is Some,
        r matches Some(s) ==> as_str_of(json_model(*v)) == Some(s@),
{
    v.as_str().map(|x| x.to_string())
}

/// `Value::as_array`, the items copied.
#[verifier::external_body]
pub(crate) fn json_as_array(v: &serde_json::Value) -> (r: Option<Vec<serde_json::Value>>)
    ensures
        r is Some <==> as_array_of(json_model(*v)) is Some,
        r matches Some(items) ==> as_array_of(json_model(*v)) == Some(json_models(items@)),
{
    v.as_array().map(|a| a.to_vec())
}

/// A JSON array of the given items (`serde_json::Value::Array`).
#[verifier::external_body]
pub(crate) fn json_array(items: Vec<serde_json::Value>) -> (r: serde_json::Value)
    ensures
        json_model(r) == JsonModel::Array(json_models(items@)),
{
    serde_json::Value::Array(items)
}

/// `Value::is_null`.
#[verifier::external_body]
pub(crate) fn json_is_null(v: &serde_json::Value) -> (r: bool)
    ensures
        r == (json_model(*v) is Null),
{
    v.is_null()
}

} // verus!
