//! The JSON values that the configuration is read from.  Parsing and the
//! look into a value are `serde_json`'s; nothing of them is proved here.

use vstd::prelude::*;

verus! {

/// `serde_json::Value`, a parsed JSON value.
#[verifier::external_type_specification]
#[verifier::external_body]
pub struct ExJsonValue(serde_json::Value);

/// What `serde_json::from_str` makes of a text: the value, or `None` where the
/// text is not JSON.
pub uninterp spec fn json_parsed(text: Seq<char>) -> Option<serde_json::Value>;

/// What `serde_json::Value::get` finds under a string key.
pub uninterp spec fn json_member(v: serde_json::Value, key: Seq<char>) -> Option<
    serde_json::Value,
>;

/// What `serde_json::Value::is_object` says of a value.
pub uninterp spec fn json_is_object(v: serde_json::Value) -> bool;

/// What `serde_json::Value::as_bool` sees in a value.
pub uninterp spec fn json_bool(v: serde_json::Value) -> Option<bool>;

/// What `serde_json::Value::as_str` sees in a value.
pub uninterp spec fn json_text(v: serde_json::Value) -> Option<Seq<char>>;

/// What `serde_json::Value::as_u64` sees in a value.
pub uninterp spec fn json_u64(v: serde_json::Value) -> Option<u64>;

/// Calls `serde_json::from_str` for a `Value`.  The result is a function of
/// the text alone; an error is handed on as `None`.
#[verifier::external_body]
pub(crate) fn json_from_str(text: &str) -> (r: Option<serde_json::Value>)
    ensures
        r == json_parsed(text@),
{
    match serde_json::from_str::<serde_json::Value>(text) {
        Ok(v) => Some(v),
        Err(_) => None,
    }
}

/// Calls `serde_json::Value::get` with a string key: the member of that name
/// if the value is an object that has one.
#[verifier::external_body]
pub(crate) fn json_get<'a>(v: &'a serde_json::Value, key: &str) -> (r: Option<
    &'a serde_json::Value,
>)
    ensures
        r is Some == json_member(*v, key@) is Some,
        r is Some ==> *r.unwrap() == json_member(*v, key@).unwrap(),
{
    v.get(key)
}

/// Calls `serde_json::Value::is_object`.
#[verifier::external_body]
pub(crate) fn json_value_is_object(v: &serde_json::Value) -> (r: bool)
    ensures
        r == json_is_object(*v),
{
    v.is_object()
}

/// Calls `serde_json::Value::as_bool`: the boolean, if the value is one.
#[verifier::external_body]
pub(crate) fn json_as_bool(v: &serde_json::Value) -> (r: Option<bool>)
    ensures
        r == json_bool(*v),
{
    v.as_bool()
}

/// Calls `serde_json::Value::as_str`: the string, if the value is one.
#[verifier::external_body]
pub(crate) fn json_as_str<'a>(v: &'a serde_json::Value) -> (r: Option<&'a str>)
    ensures
        r is Some == json_text(*v) is Some,
        r is Some ==> r.unwrap()@ == json_text(*v).unwrap(),
{
    v.as_str()
}

/// Calls `serde_json::Value::as_u64`: the number, if the value is a
/// non-negative integer that fits 64 bits.
#[verifier::external_body]
pub(crate) fn json_as_u64(v: &serde_json::Value) -> (r: Option<u64>)
    ensures
        r == json_u64(*v),
{
    v.as_u64()
}

} // verus!
