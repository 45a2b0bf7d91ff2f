//! JSON text checks backed by `serde_json`.
//!
//! Tool-call arguments travel through the library as their JSON source text.
//! Whether such text parses, and what a field of it holds, is a function of
//! the characters alone; the two names below stand for those functions, and
//! the wrappers tie them to `serde_json`.

use vstd::prelude::*;

verus! {

/// Whether a text parses as JSON.
pub uninterp spec fn json_ok(s: Seq<char>) -> bool;

/// The string value of a top-level field of a JSON object, where the text
/// parses and the field holds a string.
pub uninterp spec fn json_str_field(s: Seq<char>, field: Seq<char>) -> Option<Seq<char>>;

/// Relies on `serde_json::from_str::<Value>`: whether a text parses as JSON
/// depends on its characters alone.
#[verifier::external_body]
pub fn json_is_valid(s: &str) -> (r: bool)
    ensures
        r == json_ok(s@),
{
    serde_json::from_str::<serde_json::Value>(s).is_ok()
}

/// Relies on `serde_json`'s `from_str`, `Value::get` and `Value::as_str`:
/// the string value of a top-level field, a function of the text alone.
#[verifier::external_body]
pub fn json_string_field(s: &str, field: &str) -> (r: Option<String>)
    ensures
        r matches Some(v) ==> json_str_field(s@, field@) == Some(v@),
        r is None ==> json_str_field(s@, field@) is None,
{
    let value: serde_json::Value = match serde_json::from_str(s) {
        Ok(v) => v,
        Err(_) => return None,
    };
    value.get(field).and_then(|f| f.as_str()).map(|x| x.to_string())
}

} // verus!
