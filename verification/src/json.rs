//! Reading single members of small JSON documents, through `serde_json`.
use vstd::prelude::*;

verus! {

/// What `serde_json` reads from the JSON text `text` as the unsigned 64-bit
/// integer member `key` of its top-level object: `None` when the text is not
/// JSON, when the member is missing or when it is not such an integer.
pub uninterp spec fn json_u64_member(text: Seq<char>, key: Seq<char>) -> Option<u64>;

/// What `serde_json` reads from the JSON text `text` as the string member
/// `key` of its top-level object: `None` when the text is not JSON, when the
/// member is missing or when it is not a string.
pub uninterp spec fn json_str_member(text: Seq<char>, key: Seq<char>) -> Option<Seq<char>>;

/// Parses `text` with `serde_json::from_str` into a `serde_json::Value`, and
/// reads the member `key` with `Value::get` and `Value::as_u64`. The contract
/// names the result and says nothing more of it.
#[verifier::external_body]
pub(crate) fn u64_member(text: &str, key: &str) -> (r: Option<u64>)
    ensures
        r == json_u64_member(text@, key@),
{
    match serde_json::from_str::<serde_json::Value>(text) {
        Ok(v) => v.get(key).and_then(serde_json::Value::as_u64),
        Err(_) => None,
    }
}

/// Parses `text` with `serde_json::from_str` into a `serde_json::Value`, and
/// reads the member `key` with `Value::get` and `Value::as_str`. The contract
/// names the result and says nothing more of it.
#[verifier::external_body]
pub(crate) fn str_member(text: &str, key: &str) -> (r: Option<String>)
    ensures
        r is Some == json_str_member(text@, key@) is Some,
        r matches Some(s) ==> json_str_member(text@, key@) == Some(s@),
{
    match serde_json::from_str::<serde_json::Value>(text) {
        Ok(v) => v.get(key).and_then(serde_json::Value::as_str).map(str::to_string),
        Err(_) => None,
    }
}

/// What `serde_json` reads from the JSON text `text` as the number member
/// `key` of its top-level object, as the binary64 encoding of its value:
/// `None` when the text is not JSON, when the member is missing or when it
/// is not a number.
pub uninterp spec fn json_f64_bits_member(text: Seq<char>, key: Seq<char>) -> Option<u64>;

/// What `serde_json` reads from the JSON text `text` as the boolean member
/// `key` of its top-level object: `None` when the text is not JSON, when the
/// member is missing or when it is not a boolean.
pub uninterp spec fn json_bool_member(text: Seq<char>, key: Seq<char>) -> Option<bool>;

/// The message of the error `serde_json` reports for `text`, `None` when
/// the text is JSON.
pub uninterp spec fn json_parse_error(text: Seq<char>) -> Option<Seq<char>>;

/// Parses `text` with `serde_json::from_str` into a `serde_json::Value`, and
/// reads the member `key` with `Value::get` and `Value::as_f64`, handing out
/// the number's encoding (`f64::to_bits`). The contract names the result and
/// says nothing more of it.
#[verifier::external_body]
pub(crate) fn f64_bits_member(text: &str, key: &str) -> (r: Option<u64>)
    ensures
        r == json_f64_bits_member(text@, key@),
{
    match serde_json::from_str::<serde_json::Value>(text) {
        Ok(v) => v.get(key).and_then(serde_json::Value::as_f64).map(|x| x.to_bits()),
        Err(_) => None,
    }
}

/// Parses `text` with `serde_json::from_str` into a `serde_json::Value`, and
/// reads the member `key` with `Value::get` and `Value::as_bool`. The
/// contract names the result and says nothing more of it.
#[verifier::external_body]
pub(crate) fn bool_member(text: &str, key: &str) -> (r: Option<bool>)
    ensures
        r == json_bool_member(text@, key@),
{
    match serde_json::from_str::<serde_json::Value>(text) {
        Ok(v) => v.get(key).and_then(serde_json::Value::as_bool),
        Err(_) => None,
    }
}

/// Parses `text` with `serde_json::from_str` into a `serde_json::Value` and
/// hands out the error's message (`Display`) when it fails. The contract
/// names the result and says nothing more of it.
#[verifier::external_body]
pub(crate) fn parse_error(text: &str) -> (r: Option<String>)
    ensures
        r is Some == json_parse_error(text@) is Some,
        r matches Some(m) ==> json_parse_error(text@) == Some(m@),
{
    match serde_json::from_str::<serde_json::Value>(text) {
        Ok(_) => None,
        Err(e) => Some(e.to_string()),
    }
}

} // verus!
