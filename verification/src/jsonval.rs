//! Trusted interface to `serde_json` values.
//!
//! The control plane carries the JSON values the UI runtime returns without
//! looking inside them, except for three small questions: the text a value
//! renders to, the `"code"` field some collaborator results carry, and
//! whether a value is `null`.  Each question is asked through one trusted
//! item below, against `serde_json`'s own behaviour.

use vstd::prelude::*;

verus! {

/// `serde_json`'s JSON value, carried opaquely through the control plane.
#[verifier::external_type_specification]
#[verifier::external_body]
pub struct ExValue(serde_json::Value);

/// The compact JSON text of a value; a function of the value alone.
pub uninterp spec fn json_text_of(v: serde_json::Value) -> Seq<char>;

/// The `"code"` member of a JSON object value, if any.
pub uninterp spec fn code_field_of(v: serde_json::Value) -> Option<serde_json::Value>;

/// The unsigned 64-bit integer a JSON number value holds, if any.
pub uninterp spec fn u64_of(v: serde_json::Value) -> Option<u64>;

/// Whether a value is JSON `null`.
pub uninterp spec fn is_null_of(v: serde_json::Value) -> bool;

/// Relies on `serde_json::Value`'s `Display` implementation: it renders the
/// value as compact JSON text, a function of the value alone.
#[verifier::external_body]
pub fn json_text(v: &serde_json::Value) -> (r: String)
    ensures
        r@ == json_text_of(*v),
{
    v.to_string()
}

/// Relies on `serde_json::Value::get` with a string index: the member of an
/// object under that key, `None` for other values or a missing key; a
/// function of the value alone.
#[verifier::external_body]
pub fn get_code(v: &serde_json::Value) -> (r: Option<&serde_json::Value>)
    ensures
        match r {
            Some(c) => code_field_of(*v) == Some(*c),
            None => code_field_of(*v) is None,
        },
{
    v.get("code")
}

/// Relies on `serde_json::Value::as_u64`: the number as a `u64` when the
/// value is an integer in `u64` range, `None` otherwise; a function of the
/// value alone.
#[verifier::external_body]
pub fn value_as_u64(v: &serde_json::Value) -> (r: Option<u64>)
    ensures
        r == u64_of(*v),
{
    v.as_u64()
}

/// Relies on `serde_json::Value::is_null` holding of `Value::Null`, the
/// value this constructor returns.
#[verifier::external_body]
pub fn json_null() -> (r: serde_json::Value)
    ensures
        is_null_of(r),
{
    serde_json::Value::Null
}

} // verus!
