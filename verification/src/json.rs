//! JSON documents and record sequences, read and written by `serde_json`.
//!
//! A record is a `serde_json::Value`. The library never looks inside one: it
//! carries records between the remote blob and the caller.

use serde_json::Value;
use vstd::prelude::*;

verus! {

/// `serde_json::Value`, carried as it comes.
#[verifier::external_type_specification]
#[verifier::external_body]
pub struct ExValue(serde_json::Value);

/// `serde_json::Error`, carried as it comes.
#[verifier::external_type_specification]
#[verifier::external_body]
pub struct ExJsonError(serde_json::Error);

/// The JSON value that `bytes` spell, or `None` where they are not JSON.
pub uninterp spec fn json_document(bytes: Seq<u8>) -> Option<Value>;

/// The member `key` of the JSON object `doc`, or `None` where `doc` has none.
pub uninterp spec fn json_member(doc: Value, key: Seq<char>) -> Option<Value>;

/// The compact JSON text of `value`.
pub uninterp spec fn json_rendering(value: Value) -> Seq<u8>;

/// The records that the JSON array `bytes` holds, or `None` where `bytes`
/// are not a JSON array.
pub uninterp spec fn json_records(bytes: Seq<u8>) -> Option<Seq<Value>>;

/// The JSON array text of `records`, or `None` where they cannot be written.
pub uninterp spec fn json_text(records: Seq<Value>) -> Option<Seq<u8>>;

/// The compact JSON text of an object of three members, each a key with a
/// string value given by its bytes (read as UTF-8, bytes that are none
/// replaced), or `None` where it cannot be written.
pub uninterp spec fn json_object_text(
    key_a: Seq<char>,
    value_a: Seq<u8>,
    key_b: Seq<char>,
    value_b: Seq<u8>,
    key_c: Seq<char>,
    value_c: Seq<u8>,
) -> Option<Seq<u8>>;

/// Calls `serde_json::from_slice` for a `Value`. Trusted: it succeeds exactly
/// where the named document exists and then returns it.
#[verifier::external_body]
pub(crate) fn parse_document(bytes: &[u8]) -> (r: Result<Value, serde_json::Error>)
    ensures
        match r {
            Ok(doc) => json_document(bytes@) == Some(doc),
            Err(_) => json_document(bytes@) is None,
        },
{
    serde_json::from_slice::<Value>(bytes)
}

/// Calls `Value::get` with a string key. Trusted: the result is the named
/// member.
#[verifier::external_body]
pub(crate) fn member<'a>(doc: &'a Value, key: &str) -> (r: Option<&'a Value>)
    ensures
        match r {
            Some(v) => json_member(*doc, key@) == Some(*v),
            None => json_member(*doc, key@) is None,
        },
{
    doc.get(key)
}

/// Calls `Value::to_string`. Trusted: the result is the named rendering.
#[verifier::external_body]
pub(crate) fn render(value: &Value) -> (text: Vec<u8>)
    ensures
        text@ == json_rendering(*value),
{
    value.to_string().into_bytes()
}

/// Calls `serde_json::from_slice` for a `Vec<Value>`. Trusted: it succeeds
/// exactly where the named records exist and then returns them.
#[verifier::external_body]
pub(crate) fn parse_records(bytes: &[u8]) -> (r: Result<Vec<Value>, serde_json::Error>)
    ensures
        match r {
            Ok(records) => json_records(bytes@) == Some(records@),
            Err(_) => json_records(bytes@) is None,
        },
{
    serde_json::from_slice::<Vec<Value>>(bytes)
}

/// Calls `serde_json::to_string` on a record sequence. Trusted: it succeeds
/// exactly where the named text exists and then returns it.
#[verifier::external_body]
pub(crate) fn write_records(records: &Vec<Value>) -> (r: Result<Vec<u8>, serde_json::Error>)
    ensures
        match r {
            Ok(text) => json_text(records@) == Some(text@),
            Err(_) => json_text(records@) is None,
        },
{
    serde_json::to_string(records).map(|text| text.into_bytes())
}

/// Builds a `serde_json::Value` object of three string members and calls
/// `serde_json::to_string` on it. Trusted: it succeeds exactly where the
/// named text exists and then returns it.
#[verifier::external_body]
pub(crate) fn write_object(
    key_a: &str,
    value_a: &[u8],
    key_b: &str,
    value_b: &[u8],
    key_c: &str,
    value_c: &[u8],
) -> (r: Result<Vec<u8>, serde_json::Error>)
    ensures
        match r {
            Ok(text) => json_object_text(key_a@, value_a@, key_b@, value_b@, key_c@, value_c@)
                == Some(text@),
            Err(_) => json_object_text(key_a@, value_a@, key_b@, value_b@, key_c@, value_c@)
                is None,
        },
{
    let mut members = serde_json::Map::new();
    members.insert(String::from(key_a), Value::from(String::from_utf8_lossy(value_a)));
    members.insert(String::from(key_b), Value::from(String::from_utf8_lossy(value_b)));
    members.insert(String::from(key_c), Value::from(String::from_utf8_lossy(value_c)));
    serde_json::to_string(&Value::Object(members)).map(|text| text.into_bytes())
}

/// The words in which `serde_json` reports `error`.
pub uninterp spec fn json_error_text(error: serde_json::Error) -> Seq<char>;

/// Calls `to_string` on a `serde_json::Error`. Trusted: the result is the
/// named text.
#[verifier::external_body]
pub(crate) fn describe(error: &serde_json::Error) -> (text: String)
    ensures
        text@ == json_error_text(*error),
{
    error.to_string()
}

} // verus!
