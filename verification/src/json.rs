//! The boundary to `serde_json`.
//!
//! Structured values — tool descriptors, call arguments, call results —
//! are carried opaquely as `serde_json::Value`.  The crate does not look
//! inside them; everything it needs of one (its JSON text, the member
//! under a key, whether a text parses to one) is named by an
//! uninterpreted spec function and supplied by a trusted call into
//! `serde_json`.

use vstd::prelude::*;

verus! {

#[verifier::external_type_specification]
#[verifier::external_body]
pub struct ExValue(serde_json::Value);

// The JSON text that `serde_json::to_string` prints a value as.
pub uninterp spec fn json_text_of(v: serde_json::Value) -> Seq<char>;

// What `serde_json::from_str` makes of a text: the value it parses to,
// or the parser's message.
pub uninterp spec fn json_parse(s: Seq<char>) -> Result<serde_json::Value, Seq<char>>;

// What `serde_json::Value::get` finds under a string key: the member of
// an object, `None` for a missing key or for a non-object.
pub uninterp spec fn json_member(v: serde_json::Value, key: Seq<char>) -> Option<
    serde_json::Value,
>;

// What `serde_json::Value::is_null` reports: whether a value is the
// JSON null.
pub uninterp spec fn json_is_null(v: serde_json::Value) -> bool;

/// Relies on `serde_json::to_string`: the text depends on the value
/// alone, and printing a `Value` cannot fail (its maps are keyed by
/// strings, and its `Serialize` implementation raises no error of its
/// own).
#[verifier::external_body]
pub fn value_to_text(v: &serde_json::Value) -> (r: String)
    ensures
        r@ == json_text_of(*v),
{
    serde_json::to_string(v).expect("printing a Value does not fail")
}

/// Relies on `serde_json::from_str`: whether a text parses, the value
/// it parses to, and the message it fails with depend on the text
/// alone.
#[verifier::external_body]
pub fn parse_value(s: &str) -> (r: Result<serde_json::Value, String>)
    ensures
        (r matches Ok(v) ==> json_parse(s@) == Ok::<serde_json::Value, Seq<char>>(v)),
        (r matches Err(m) ==> json_parse(s@) == Err::<serde_json::Value, Seq<char>>(m@)),
{
    serde_json::from_str::<serde_json::Value>(s).map_err(|e| e.to_string())
}

/// Relies on `serde_json::Value::get` with a string index: the member
/// under `key` depends on the value and the key alone.
#[verifier::external_body]
pub fn value_get(v: &serde_json::Value, key: &str) -> (r: Option<serde_json::Value>)
    ensures
        r == json_member(*v, key@),
{
    v.get(key).cloned()
}

/// Relies on `serde_json::Value::Null` being the value that
/// `Value::is_null` reports true of.
#[verifier::external_body]
pub fn null_value() -> (r: serde_json::Value)
    ensures
        json_is_null(r),
{
    serde_json::Value::Null
}

} // verus!
