//! JSON and TOML documents, read and written by `serde_json` and `toml`.

use crate::json::{member, Json, JsonNumber};
use crate::text::result_text;
use vstd::prelude::*;

verus! {

// ---------------------------------------------------------------------------
// JSON
// ---------------------------------------------------------------------------

/// A parsed JSON document of `serde_json`.
#[verifier::external_type_specification]
#[verifier::external_body]
pub struct ExJsonValue(serde_json::Value);

/// What reading `text` as JSON gives: the document, or the complaint.
pub uninterp spec fn json_document(text: Seq<char>) -> Result<serde_json::Value, Seq<char>>;

/// What a JSON document holds.
pub uninterp spec fn json_contents(value: serde_json::Value) -> Json;

/// The compact notation of a JSON document.
pub uninterp spec fn json_compact(value: serde_json::Value) -> Seq<char>;

/// The indented notation of a JSON document, or the complaint about writing it.
pub uninterp spec fn json_pretty(value: serde_json::Value) -> Result<Seq<char>, Seq<char>>;

/// `serde_json::from_str` for a `Value`. What it gives, the document or the text of
/// its error, depends on the text alone; nothing more is claimed of it.
#[verifier::external_body]
pub(crate) fn parse_json(text: &str) -> (r: Result<serde_json::Value, String>)
    ensures
        match r {
            Ok(v) => json_document(text@) == Ok::<serde_json::Value, Seq<char>>(v),
            Err(e) => json_document(text@) == Err::<serde_json::Value, Seq<char>>(e@),
        },
{
    serde_json::from_str(text).map_err(|error| error.to_string())
}

/// The variants of `serde_json::Value`, one for one: a number with what
/// `Number::as_u64` and its notation give, an object with its entries in the order
/// the document keeps them.
#[verifier::external_body]
pub(crate) fn plain_json(value: &serde_json::Value) -> (r: Json)
    ensures
        r == json_contents(*value),
{
    match value {
        serde_json::Value::Null => Json::Null,
        serde_json::Value::Bool(b) => Json::Bool(*b),
        serde_json::Value::Number(n) => Json::Number(
            JsonNumber { unsigned: n.as_u64(), text: n.to_string() },
        ),
        serde_json::Value::String(s) => Json::Str(s.clone()),
        serde_json::Value::Array(a) => Json::Array(a.iter().map(plain_json).collect()),
        serde_json::Value::Object(o) => Json::Object(
            o.iter().map(|(k, v)| (k.clone(), plain_json(v))).collect(),
        ),
    }
}

/// The `Display` of a `serde_json::Value`, its compact notation.
#[verifier::external_body]
pub(crate) fn compact_json(value: &serde_json::Value) -> (r: String)
    ensures
        r@ == json_compact(*value),
{
    value.to_string()
}

/// `Value::Object` of an empty map.
#[verifier::external_body]
pub(crate) fn json_object() -> (r: serde_json::Value)
    ensures
        json_contents(r) is Object,
        forall|k: Seq<char>| #[trigger] member(json_contents(r), k) is None,
{
    serde_json::Value::Object(serde_json::Map::new())
}

/// `Value::String` of a text.
#[verifier::external_body]
pub(crate) fn json_string(text: &str) -> (r: serde_json::Value)
    ensures
        crate::json::as_text(json_contents(r)) == Some(text@),
{
    serde_json::Value::String(text.to_owned())
}

/// `Value::as_object_mut` and `Map::insert`: puts a value under `key` of an object,
/// keeping every other entry; a value that is no object stays as it is. Returns
/// whether it is one.
#[verifier::external_body]
pub(crate) fn insert_json(value: &mut serde_json::Value, key: &str, item: serde_json::Value) -> (r:
    bool)
    ensures
        r == (json_contents(*old(value)) is Object),
        !r ==> *final(value) == *old(value),
        r ==> json_contents(*final(value)) is Object,
        r ==> member(json_contents(*final(value)), key@) == Some(json_contents(item)),
        r ==> forall|k: Seq<char>|
            k != key@ ==> #[trigger] member(json_contents(*final(value)), k) == member(
                json_contents(*old(value)),
                k,
            ),
{
    match value.as_object_mut() {
        Some(object) => {
            object.insert(key.to_owned(), item);
            true
        }
        None => false,
    }
}

/// `serde_json::to_string_pretty` of a `Value`.
#[verifier::external_body]
pub(crate) fn pretty_json(value: &serde_json::Value) -> (r: Result<String, String>)
    ensures
        result_text(r) == json_pretty(*value),
{
    serde_json::to_string_pretty(value).map_err(|error| error.to_string())
}

/// A reply of the server: what it holds, and how it is printed as it is.
#[derive(Debug, PartialEq, Eq)]
pub struct Reply {
    pub value: Json,
    pub compact: String,
}

/// The reply that a line of JSON is.
pub open spec fn reply_is(reply: Reply, value: serde_json::Value) -> bool {
    reply.value == json_contents(value) && reply.compact@ == json_compact(value)
}

/// Reads a reply of the server.
pub fn read_reply(text: &str) -> (r: Result<Reply, String>)
    ensures
        match (r, json_document(text@)) {
            (Ok(reply), Ok(value)) => reply_is(reply, value),
            (Err(m), Err(e)) => m@ == e,
            _ => false,
        },
{
    match parse_json(text) {
        Ok(value) => Ok(Reply { value: plain_json(&value), compact: compact_json(&value) }),
        Err(e) => Err(e),
    }
}

/// Reads a JSON document.
pub fn read_json(text: &str) -> (r: Result<Json, String>)
    ensures
        match (r, json_document(text@)) {
            (Ok(v), Ok(value)) => v == json_contents(value),
            (Err(m), Err(e)) => m@ == e,
            _ => false,
        },
{
    match parse_json(text) {
        Ok(value) => Ok(plain_json(&value)),
        Err(e) => Err(e),
    }
}

// ---------------------------------------------------------------------------
// TOML
// ---------------------------------------------------------------------------

/// A parsed TOML document of `toml`.
#[verifier::external_type_specification]
#[verifier::external_body]
pub struct ExTomlValue(toml::Value);

/// What reading `text` as TOML gives: the document, or the complaint.
pub uninterp spec fn toml_document(text: Seq<char>) -> Result<toml::Value, Seq<char>>;

/// The entries of a TOML table; nothing where the value is no table.
pub uninterp spec fn toml_entries(value: toml::Value) -> Option<Map<Seq<char>, toml::Value>>;

/// The text of a TOML string; nothing where the value is no string.
pub uninterp spec fn toml_text(value: toml::Value) -> Option<Seq<char>>;

/// The indented notation of a TOML document, or the complaint about writing it.
pub uninterp spec fn toml_pretty(value: toml::Value) -> Result<Seq<char>, Seq<char>>;

/// `str::parse::<toml::Value>`. What it gives, the document or the text of its
/// error, depends on the text alone; nothing more is claimed of it.
#[verifier::external_body]
pub(crate) fn parse_toml(text: &str) -> (r: Result<toml::Value, String>)
    ensures
        match r {
            Ok(v) => toml_document(text@) == Ok::<toml::Value, Seq<char>>(v),
            Err(e) => toml_document(text@) == Err::<toml::Value, Seq<char>>(e@),
        },
{
    text.parse::<toml::Value>().map_err(|error| error.to_string())
}

/// `toml::Value::as_table` and `Map::contains_key`: whether a table has `key`;
/// nothing where the value is no table.
#[verifier::external_body]
pub(crate) fn toml_has_key(value: &toml::Value, key: &str) -> (r: Option<bool>)
    ensures
        r == (match toml_entries(*value) {
            Some(m) => Some(m.contains_key(key@)),
            None => None,
        }),
{
    value.as_table().map(|table| table.contains_key(key))
}

/// `Value::String` of a text.
#[verifier::external_body]
pub(crate) fn toml_string(text: &str) -> (r: toml::Value)
    ensures
        toml_text(r) == Some(text@),
{
    toml::Value::String(text.to_owned())
}

/// `toml::Value::as_table_mut` and `Map::insert`: puts a value under `key` of a table,
/// keeping every other entry; a value that is no table stays as it is. Returns whether
/// it is one.
#[verifier::external_body]
pub(crate) fn insert_toml(value: &mut toml::Value, key: &str, item: toml::Value) -> (r: bool)
    ensures
        r == (toml_entries(*old(value)) is Some),
        !r ==> *final(value) == *old(value),
        r ==> toml_entries(*final(value)) == Some(
            toml_entries(*old(value))->0.insert(key@, item),
        ),
{
    match value.as_table_mut() {
        Some(table) => {
            table.insert(key.to_owned(), item);
            true
        }
        None => false,
    }
}

/// `toml::to_string_pretty` of a `Value`.
#[verifier::external_body]
pub(crate) fn pretty_toml(value: &toml::Value) -> (r: Result<String, String>)
    ensures
        result_text(r) == toml_pretty(*value),
{
    toml::to_string_pretty(value).map_err(|error| error.to_string())
}

/// Whether `text` is valid TOML, and the complaint where it is not.
pub fn check_toml(text: &str) -> (r: Option<String>)
    ensures
        match (r, toml_document(text@)) {
            (None, Ok(_)) => true,
            (Some(m), Err(e)) => m@ == e,
            _ => false,
        },
{
    match parse_toml(text) {
        Ok(_) => None,
        Err(e) => Some(e),
    }
}

} // verus!
