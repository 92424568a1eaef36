//! The trusted boundary to `serde_json`: the opaque JSON value type, names
//! for what its deterministic operations return, and one thin wrapper per
//! operation the bridge relies on.
//!
//! A `serde_json::Value` is opaque here; its contents are reachable only
//! through the names below, each tied to one `serde_json` operation whose
//! result depends on its arguments alone (the crate's maps keep their keys
//! ordered, so serialization is canonical).

use vstd::prelude::*;

verus! {

#[verifier::external_type_specification]
#[verifier::external_body]
pub struct ExJsonValue(serde_json::Value);

#[verifier::external_type_specification]
#[verifier::external_body]
pub struct ExJsonError(serde_json::Error);

/// What `serde_json::from_str` yields for a text: the parsed value, or
/// nothing when the text is not valid JSON.
pub uninterp spec fn json_parsed(s: Seq<char>) -> Option<serde_json::Value>;

/// What `serde_json::Value::get` yields: the member of an object under a
/// key, or nothing when the value is no object or lacks the key.
pub uninterp spec fn json_field(v: serde_json::Value, key: Seq<char>) -> Option<
    serde_json::Value,
>;

/// What `serde_json::Value::as_str` yields: the characters of a string
/// value, or nothing when the value is no string.
pub uninterp spec fn json_as_str(v: serde_json::Value) -> Option<Seq<char>>;

/// What `serde_json::to_string` yields for a value: its canonical text.
pub uninterp spec fn json_text(v: serde_json::Value) -> Seq<char>;

/// What removing one key from an object value yields; a value that is no
/// object is returned unchanged.
pub uninterp spec fn json_without(v: serde_json::Value, key: Seq<char>) -> serde_json::Value;

/// Relies on serde_json::from_str: whether a text parses, and to which
/// value, depends on the text alone.
#[verifier::external_body]
pub fn parse_json(s: &str) -> (r: Result<serde_json::Value, serde_json::Error>)
    ensures
        r is Ok <==> json_parsed(s@) is Some,
        r matches Ok(v) ==> json_parsed(s@) == Some(v),
{
    serde_json::from_str(s)
}

/// Relies on serde_json::Value::get: object member lookup depends on the
/// value and the key alone; the clone handed back is equal to the member.
#[verifier::external_body]
pub fn get_field(v: &serde_json::Value, key: &str) -> (r: Option<serde_json::Value>)
    ensures
        r == json_field(*v, key@),
{
    v.get(key).cloned()
}

/// Relies on serde_json::Value::as_str: present exactly for string values,
/// with the string's own characters.
#[verifier::external_body]
pub fn value_as_str(v: &serde_json::Value) -> (r: Option<String>)
    ensures
        r is Some <==> json_as_str(*v) is Some,
        r matches Some(s) ==> json_as_str(*v) == Some(s@),
{
    v.as_str().map(|s| s.to_owned())
}

/// Relies on serde_json::to_string: a value's serialization depends on the
/// value alone, keys in their stored order. On a `Value` it has no failure
/// path — map keys are strings and its `Serialize` impl never errors — so
/// success is promised.
#[verifier::external_body]
pub fn value_to_text(v: &serde_json::Value) -> (r: Result<String, serde_json::Error>)
    ensures
        r is Ok,
        r matches Ok(s) ==> s@ == json_text(*v),
{
    serde_json::to_string(v)
}

/// Relies on serde_json::Map::remove: dropping one key of an object depends
/// on the value and the key alone; a non-object value passes through.
#[verifier::external_body]
pub fn without_field(v: &serde_json::Value, key: &str) -> (r: serde_json::Value)
    ensures
        r == json_without(*v, key@),
{
    let mut c = v.clone();
    if let serde_json::Value::Object(m) = &mut c {
        m.remove(key);
    }
    c
}

/// Relies on serde_json::Error's Display impl: a one-line diagnostic for the
/// failure; nothing is assumed of its text.
#[verifier::external_body]
pub fn error_text(e: &serde_json::Error) -> String {
    format!("{}", e)
}

} // verus!
