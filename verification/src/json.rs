//! Trusted interface to `serde_json`.
//!
//! JSON values run through the hub opaquely: schemas, script outputs and
//! delivery payloads are `serde_json::Value`s that the verified logic carries
//! but never inspects beyond the few operations declared here.  Each
//! operation's result is a function of its arguments alone, so it is given a
//! name that contracts elsewhere can speak of.

use vstd::prelude::*;

verus! {

#[verifier::external_type_specification]
#[verifier::external_body]
pub struct ExValue(serde_json::Value);

/// Relies on `serde_json::Value`'s `Clone`: the copy equals the original.
pub assume_specification[ <serde_json::Value as Clone>::clone ](v: &serde_json::Value) -> (r:
    serde_json::Value)
    ensures
        r == *v,
;

/// The JSON value a text denotes, or `None` where the text is not
/// well-formed JSON; a function of the characters alone.
pub uninterp spec fn json_value_of(s: Seq<char>) -> Option<serde_json::Value>;

/// Relies on `serde_json::from_str::<Value>`: parses well-formed JSON text to
/// its value and rejects everything else.
#[verifier::external_body]
pub fn try_parse_json(s: &str) -> (r: Option<serde_json::Value>)
    ensures
        r == json_value_of(s@),
{
    serde_json::from_str::<serde_json::Value>(s).ok()
}

/// The member of a JSON value under a field name: `None` where the value is
/// not an object or lacks the field.
pub uninterp spec fn json_field(v: serde_json::Value, name: Seq<char>) -> Option<
    serde_json::Value,
>;

/// Relies on `serde_json::Value::get` with a string index: looks the field up
/// in an object and returns `None` for any other value.
#[verifier::external_body]
pub fn json_object_field<'a>(v: &'a serde_json::Value, name: &str) -> (r: Option<
    &'a serde_json::Value,
>)
    ensures
        match r {
            Some(f) => json_field(*v, name@) == Some(*f),
            None => json_field(*v, name@) is None,
        },
{
    v.get(name)
}

/// The unsigned 64-bit integer a JSON value represents, if it is a number
/// exactly representable as one.
pub uninterp spec fn json_u64_of(v: serde_json::Value) -> Option<u64>;

/// Relies on `serde_json::Value::as_u64`.
#[verifier::external_body]
pub fn json_as_u64(v: &serde_json::Value) -> (r: Option<u64>)
    ensures
        r == json_u64_of(*v),
{
    v.as_u64()
}

/// Whether a JSON value is `null`.
pub uninterp spec fn json_is_null_of(v: serde_json::Value) -> bool;

/// Relies on `serde_json::Value::is_null`.
#[verifier::external_body]
pub fn json_is_null(v: &serde_json::Value) -> (r: bool)
    ensures
        r == json_is_null_of(*v),
{
    v.is_null()
}

} // verus!
