//! JSON documents, as `serde_json` reads them.
//!
//! A document is held as a `serde_json::Value`, which is opaque here: what it
//! holds is known only through the accessors below. Each accessor is one call
//! into `serde_json`, and beside it stands the name by which contracts speak of
//! the call's result.

use vstd::prelude::*;
use serde_json::Value;

verus! {

/// `serde_json::Value`, a JSON value of any kind. Nothing is claimed of what
/// is inside one.
#[verifier::external_type_specification]
#[verifier::external_body]
pub struct ExValue(serde_json::Value);

/// `serde_json::Error`, the reason why a text was not read. Nothing is claimed
/// of it.
#[verifier::external_type_specification]
#[verifier::external_body]
pub struct ExJsonError(serde_json::Error);

/// The document that `serde_json` reads from a text; `None` where the text is
/// not one JSON document that it accepts.
pub uninterp spec fn json_document(text: Seq<char>) -> Option<Value>;

/// The member of an object under a key; `None` for a value that is no object
/// or has no such member.
pub uninterp spec fn json_member(value: Value, key: Seq<char>) -> Option<Value>;

/// The text of a JSON string; `None` for any other value.
pub uninterp spec fn json_text(value: Value) -> Option<Seq<char>>;

/// The number that a value holds, where it was written as an integer and lies
/// between 0 and `u64::MAX`; `None` for any other value.
pub uninterp spec fn json_u64(value: Value) -> Option<u64>;

/// The number that a value holds, where it was written as an integer and lies
/// between `i64::MIN` and `i64::MAX`; `None` for any other value.
pub uninterp spec fn json_i64(value: Value) -> Option<i64>;

/// The truth value of a JSON boolean; `None` for any other value.
pub uninterp spec fn json_bool(value: Value) -> Option<bool>;

/// The elements of a JSON array, in order; `None` for any other value.
pub uninterp spec fn json_items(value: Value) -> Option<Seq<Value>>;

/// Whether a value is JSON's `null`.
pub uninterp spec fn json_is_null(value: Value) -> bool;

/// Calls `serde_json::from_str` for a `Value`. The call reads nothing but its
/// argument, so what it returns is a function of the text: `Ok` with the
/// document, or `Err` where the text is not one JSON document.
#[verifier::external_body]
pub(crate) fn parse(text: &str) -> (r: Result<Value, serde_json::Error>)
    ensures
        match r {
            Ok(value) => json_document(text@) == Some(value),
            Err(_) => json_document(text@).is_none(),
        },
{
    serde_json::from_str::<Value>(text)
}

/// Calls `Value::get` with a string key: the member under that key where the
/// value is an object that has one, else `None`.
#[verifier::external_body]
pub(crate) fn member<'a>(value: &'a Value, key: &str) -> (r: Option<&'a Value>)
    ensures
        match r {
            Some(found) => json_member(*value, key@) == Some(*found),
            None => json_member(*value, key@).is_none(),
        },
{
    value.get(key)
}

/// Calls `Value::as_str`: the text where the value is a string, else `None`.
#[verifier::external_body]
pub(crate) fn text<'a>(value: &'a Value) -> (r: Option<&'a str>)
    ensures
        match r {
            Some(found) => json_text(*value) == Some(found@),
            None => json_text(*value).is_none(),
        },
{
    value.as_str()
}

/// Calls `Value::as_u64`: the number where the value is an integer that a
/// `u64` holds, else `None`.
#[verifier::external_body]
pub(crate) fn unsigned(value: &Value) -> (r: Option<u64>)
    ensures
        r == json_u64(*value),
{
    value.as_u64()
}

/// Calls `Value::as_i64`: the number where the value is an integer that an
/// `i64` holds, else `None`.
#[verifier::external_body]
pub(crate) fn signed(value: &Value) -> (r: Option<i64>)
    ensures
        r == json_i64(*value),
{
    value.as_i64()
}

/// Calls `Value::as_bool`: the truth value where the value is a boolean, else
/// `None`.
#[verifier::external_body]
pub(crate) fn boolean(value: &Value) -> (r: Option<bool>)
    ensures
        r == json_bool(*value),
{
    value.as_bool()
}

/// Calls `Value::as_array`: the elements where the value is an array, else
/// `None`.
#[verifier::external_body]
pub(crate) fn items<'a>(value: &'a Value) -> (r: Option<&'a Vec<Value>>)
    ensures
        match r {
            Some(found) => json_items(*value) == Some(found@),
            None => json_items(*value).is_none(),
        },
{
    value.as_array()
}

/// Calls `Value::is_null`.
#[verifier::external_body]
pub(crate) fn is_null(value: &Value) -> (r: bool)
    ensures
        r == json_is_null(*value),
{
    value.is_null()
}

/// Calls `Value::clone`, which gives an equal value.
#[verifier::external_body]
pub(crate) fn copy(value: &Value) -> (r: Value)
    ensures
        r == *value,
{
    value.clone()
}

} // verus!
