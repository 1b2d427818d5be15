//! JSON payloads, read with `serde_json`.
//!
//! A parsed payload is kept as the `serde_json::Value` that the parser made.
//! Verus cannot look inside such a value, so each observation that the
//! command parser makes of one has a name here, and the contracts of the
//! parser are stated over those names.

use vstd::prelude::*;

verus! {

/// `serde_json::Value`, any JSON value.
#[verifier::external_type_specification]
#[verifier::external_body]
pub struct ExValue(serde_json::Value);

/// `serde_json::Error`, the error of `serde_json`'s parser.
#[verifier::external_type_specification]
#[verifier::external_body]
pub struct ExError(serde_json::Error);

/// The value that `serde_json::from_str` reads from `text`, or `None` where
/// it reports an error.
pub uninterp spec fn json_document(text: Seq<char>) -> Option<serde_json::Value>;

/// Whether `value` is a JSON object.
pub uninterp spec fn json_is_object(value: serde_json::Value) -> bool;

/// Whether `value` is a JSON array.
pub uninterp spec fn json_is_array(value: serde_json::Value) -> bool;

/// What indexing `value` with the string `key` yields.
pub uninterp spec fn json_member(value: serde_json::Value, key: Seq<char>) -> serde_json::Value;

/// What indexing `value` with the position `index` yields.
pub uninterp spec fn json_element(value: serde_json::Value, index: usize) -> serde_json::Value;

/// `value` as a signed 64-bit integer, where `serde_json` takes it for one.
pub uninterp spec fn json_integer(value: serde_json::Value) -> Option<i64>;

/// `value` as a string, where it is one.
pub uninterp spec fn json_string(value: serde_json::Value) -> Option<Seq<char>>;

/// The bit pattern of `value` as a binary64 number, where `serde_json` takes
/// it for a number.
pub uninterp spec fn json_number(value: serde_json::Value) -> Option<u64>;

/// Calls `serde_json::from_str` to read one JSON value from `text`. The
/// contract only gives the outcome a name: the same text always reads as the
/// same value, or always fails.
#[verifier::external_body]
pub(crate) fn parse_json(text: &str) -> (r: Result<serde_json::Value, serde_json::Error>)
    ensures
        r matches Ok(value) ==> json_document(text@) == Some(value),
        r is Err ==> json_document(text@) is None,
{
    serde_json::from_str(text)
}

/// Indexes a `serde_json::Value` with a string, as `value[key]` does. The
/// contract only names what comes back.
#[verifier::external_body]
pub(crate) fn member<'a>(value: &'a serde_json::Value, key: &str) -> (r: &'a serde_json::Value)
    ensures
        *r == json_member(*value, key@),
{
    &value[key]
}

/// Indexes a `serde_json::Value` with a position, as `value[index]` does.
/// The contract only names what comes back.
#[verifier::external_body]
pub(crate) fn element<'a>(value: &'a serde_json::Value, index: usize) -> (r: &'a serde_json::Value)
    ensures
        *r == json_element(*value, index),
{
    &value[index]
}

/// `serde_json::Value::is_object`: the contract names the answer.
pub assume_specification[ serde_json::Value::is_object ](value: &serde_json::Value) -> (r: bool)
    ensures
        r == json_is_object(*value),
;

/// `serde_json::Value::is_array`: the contract names the answer.
pub assume_specification[ serde_json::Value::is_array ](value: &serde_json::Value) -> (r: bool)
    ensures
        r == json_is_array(*value),
;

/// `serde_json::Value::as_i64`: the contract names the answer.
pub assume_specification[ serde_json::Value::as_i64 ](value: &serde_json::Value) -> (r: Option<
    i64,
>)
    ensures
        r == json_integer(*value),
;

/// `serde_json::Value::as_str`: the contract names the answer, a string
/// slice taken by its characters.
pub assume_specification<'a>[ serde_json::Value::as_str ](value: &'a serde_json::Value) -> (r:
    Option<&'a str>)
    ensures
        r matches Some(text) ==> json_string(*value) == Some(text@),
        r is None ==> json_string(*value) is None,
;

/// Calls `serde_json::Value::as_f64` and hands the number back as its bit
/// pattern. The contract names the answer.
#[verifier::external_body]
pub(crate) fn number_bits(value: &serde_json::Value) -> (r: Option<u64>)
    ensures
        r == json_number(*value),
{
    value.as_f64().map(|number| number.to_bits())
}

} // verus!
