//! Reading JSON payloads: event data of the AI chat streams and the raw
//! JSON flags of several commands. Parsing and serializing are `serde_json`'s;
//! what the library does with the parsed fields is verified.

use vstd::prelude::*;
use crate::text::owned;

verus! {

#[verifier::external_type_specification]
#[verifier::external_body]
pub struct ExJsonValue(serde_json::Value);

#[verifier::external_type_specification]
#[verifier::external_body]
#[verifier::reject_recursive_types(K)]
#[verifier::reject_recursive_types(V)]
pub struct ExJsonMap<K, V>(serde_json::Map<K, V>);

/// Whether `serde_json::from_str::<Value>` accepts the text.
pub uninterp spec fn json_valid(s: Seq<char>) -> bool;

/// Whether the text parses to a JSON object.
pub uninterp spec fn json_object(s: Seq<char>) -> bool;

/// The string at `key` of the value parsed from the text (`Value::get` then
/// `Value::as_str`); none where the text does not parse, the value is no
/// object, or the field is missing or not a string.
pub uninterp spec fn json_str_field(s: Seq<char>, key: Seq<char>) -> Option<Seq<char>>;

/// The boolean at `key` of the value parsed from the text (`Value::as_bool`).
pub uninterp spec fn json_bool_field(s: Seq<char>, key: Seq<char>) -> Option<bool>;

/// The integer at `key` of the value parsed from the text, where it fits an
/// `i64` (`Value::as_i64`).
pub uninterp spec fn json_i64_field(s: Seq<char>, key: Seq<char>) -> Option<i64>;

/// The compact JSON text (`Value`'s `Display`) of the value at `key` of the
/// value parsed from the text; none where there is no such field.
pub uninterp spec fn json_field_text(s: Seq<char>, key: Seq<char>) -> Option<Seq<char>>;

/// The length of the array at `key` of the value parsed from the text
/// (`Value::as_array`).
pub uninterp spec fn json_array_len(s: Seq<char>, key: Seq<char>) -> Option<nat>;

/// `serde_json::from_str::<Value>(s).is_ok()`. Trusted: named
/// `json_valid` of the text.
#[verifier::external_body]
pub(crate) fn is_json(s: &str) -> (b: bool)
    ensures
        b == json_valid(s@),
{
    serde_json::from_str::<serde_json::Value>(s).is_ok()
}

/// The string field `key` of the parsed text. Trusted: named
/// `json_str_field`; a field is only found in text that parses.
#[verifier::external_body]
pub(crate) fn str_field(s: &str, key: &str) -> (r: Option<String>)
    ensures
        match r {
            Some(t) => json_str_field(s@, key@) == Some(t@),
            None => json_str_field(s@, key@) is None,
        },
        r is Some ==> json_valid(s@),
{
    serde_json::from_str::<serde_json::Value>(s)
        .ok()
        .and_then(|v| v.get(key).and_then(serde_json::Value::as_str).map(|t| t.to_string()))
}

/// The boolean field `key` of the parsed text. Trusted: named
/// `json_bool_field`.
#[verifier::external_body]
pub(crate) fn bool_field(s: &str, key: &str) -> (r: Option<bool>)
    ensures
        r == json_bool_field(s@, key@),
{
    serde_json::from_str::<serde_json::Value>(s).ok().and_then(|v| v.get(key).and_then(serde_json::Value::as_bool))
}

/// The integer field `key` of the parsed text. Trusted: named
/// `json_i64_field`.
#[verifier::external_body]
pub(crate) fn i64_field(s: &str, key: &str) -> (r: Option<i64>)
    ensures
        r == json_i64_field(s@, key@),
{
    serde_json::from_str::<serde_json::Value>(s).ok().and_then(|v| v.get(key).and_then(serde_json::Value::as_i64))
}

/// The JSON text of field `key` of the parsed text (`Value`'s `Display`).
/// Trusted: named `json_field_text`.
#[verifier::external_body]
pub(crate) fn field_text(s: &str, key: &str) -> (r: Option<String>)
    ensures
        match r {
            Some(t) => json_field_text(s@, key@) == Some(t@),
            None => json_field_text(s@, key@) is None,
        },
{
    serde_json::from_str::<serde_json::Value>(s).ok().and_then(|v| v.get(key).map(|f| f.to_string()))
}

/// The length of the array field `key` of the parsed text. Trusted: named
/// `json_array_len`.
#[verifier::external_body]
pub(crate) fn array_len(s: &str, key: &str) -> (r: Option<usize>)
    ensures
        match r {
            Some(n) => json_array_len(s@, key@) == Some(n as nat),
            None => json_array_len(s@, key@) is None,
        },
{
    serde_json::from_str::<serde_json::Value>(s).ok().and_then(|v| v.get(key).and_then(serde_json::Value::as_array).map(|a| a.len()))
}

/// What `serde_json`'s parse error says about the text (its `Display`).
pub uninterp spec fn json_error_text(s: Seq<char>) -> Seq<char>;

/// The `Display` of the error of `serde_json::from_str::<Value>(s)`, empty
/// where the text parses. Trusted: named `json_error_text` where the parse
/// fails.
#[verifier::external_body]
pub(crate) fn parse_error(s: &str) -> (r: String)
    ensures
        !json_valid(s@) ==> r@ == json_error_text(s@),
{
    match serde_json::from_str::<serde_json::Value>(s) {
        Ok(_) => String::new(),
        Err(e) => e.to_string(),
    }
}

/// The value `serde_json::from_str::<Value>` parses from the text.
pub uninterp spec fn json_value_of(s: Seq<char>) -> serde_json::Value;

/// The map `serde_json::from_str::<Value>` parses from a text that holds a
/// JSON object.
pub uninterp spec fn json_object_of(s: Seq<char>) -> serde_json::Map<String, serde_json::Value>;

/// `Value::Object` of a map.
pub uninterp spec fn json_object_value(m: serde_json::Map<String, serde_json::Value>) -> serde_json::Value;

/// `serde_json::from_str::<Value>(s)`. Trusted: the parse succeeds exactly
/// where `json_valid` holds, and gives the value named `json_value_of` of
/// the text.
#[verifier::external_body]
pub(crate) fn parse_value(s: &str) -> (r: Option<serde_json::Value>)
    ensures
        r is Some <==> json_valid(s@),
        r matches Some(v) ==> v == json_value_of(s@),
{
    serde_json::from_str::<serde_json::Value>(s).ok()
}

/// `serde_json::from_str::<Value>(s)` as an object. Trusted: `Some` exactly
/// where the text parses to an object, holding the map named
/// `json_object_of` of the text.
#[verifier::external_body]
pub(crate) fn parse_object(s: &str) -> (r: Option<serde_json::Map<String, serde_json::Value>>)
    ensures
        r is Some <==> json_object(s@),
        r is Some ==> json_valid(s@),
        r matches Some(m) ==> m == json_object_of(s@),
{
    match serde_json::from_str::<serde_json::Value>(s) {
        Ok(serde_json::Value::Object(map)) => Some(map),
        _ => None,
    }
}

/// `Value::Object(map)`. Trusted: named `json_object_value` of the map.
#[verifier::external_body]
pub(crate) fn object_value(map: serde_json::Map<String, serde_json::Value>) -> (r: serde_json::Value)
    ensures
        r == json_object_value(map),
{
    serde_json::Value::Object(map)
}

/// A raw JSON flag that must hold an object: `{flag} must be valid JSON`
/// where it does not parse, `{flag} must be a JSON object, ...` where it is
/// not an object.
pub fn parse_json_object(raw: &str, flag_name: &str) -> (r: Result<
    serde_json::Map<String, serde_json::Value>,
    String,
>)
    ensures
        r is Ok <==> json_object(raw@),
        r matches Ok(m) ==> m == json_object_of(raw@),
        r matches Err(e) ==> e@ == if json_valid(raw@) {
            flag_name@ + " must be a JSON object, e.g. '{\"key\":\"value\"}'"@
        } else {
            flag_name@ + " must be valid JSON"@
        },
{
    match parse_object(raw) {
        Some(map) => Ok(map),
        None => {
            let mut e = owned(flag_name);
            if is_json(raw) {
                e.append(" must be a JSON object, e.g. '{\"key\":\"value\"}'");
            } else {
                e.append(" must be valid JSON");
            }
            Err(e)
        },
    }
}

/// A raw JSON flag that may hold any JSON value: `{flag} must be valid JSON`
/// where it does not parse.
pub fn parse_json_arg(raw: &str, flag: &str) -> (r: Result<serde_json::Value, String>)
    ensures
        r is Ok <==> json_valid(raw@),
        r matches Ok(v) ==> v == json_value_of(raw@),
        r matches Err(e) ==> e@ == flag@ + " must be valid JSON"@,
{
    match parse_value(raw) {
        Some(v) => Ok(v),
        None => {
            let mut e = owned(flag);
            e.append(" must be valid JSON");
            Err(e)
        },
    }
}

} // verus!
