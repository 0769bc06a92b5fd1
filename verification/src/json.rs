//! The one question the platform asks of JSON documents: the string found at
//! a JSON Pointer.

use vstd::prelude::*;

verus! {

/// What `serde_json` makes of `bytes` read as a JSON document and then asked
/// for the string at `pointer`: `Err` with the parser's message where the
/// bytes are not JSON, `Ok(None)` where nothing or no string stands there.
pub uninterp spec fn json_text_at(bytes: Seq<u8>, pointer: Seq<char>) -> Result<Option<Seq<char>>, Seq<char>>;

/// Calls `serde_json::from_slice::<serde_json::Value>` on `bytes`, then
/// `Value::pointer` and `Value::as_str` on the result. Trusted: the outcome
/// is the crate's, as named by `json_text_at`; nothing more is claimed of it.
#[verifier::external_body]
pub fn text_at_pointer(bytes: &[u8], pointer: &str) -> (r: Result<Option<String>, String>)
    ensures
        match (r, json_text_at(bytes@, pointer@)) {
            (Ok(Some(s)), Ok(Some(t))) => s@ == t,
            (Ok(None), Ok(None)) => true,
            (Err(m), Err(t)) => m@ == t,
            _ => false,
        },
{
    match serde_json::from_slice::<serde_json::Value>(bytes) {
        Err(e) => Err(e.to_string()),
        Ok(v) => match v.pointer(pointer) {
            Some(found) => match found.as_str() {
                Some(s) => Ok(Some(s.to_string())),
                None => Ok(None),
            },
            None => Ok(None),
        },
    }
}

/// What `serde_json` makes of `bytes` read as a JSON document and then asked
/// for the value at `pointer`, written back as compact JSON text: `Err` with
/// the parser's message where the bytes are not JSON, `Ok(None)` where
/// nothing stands there.
pub uninterp spec fn json_value_at(bytes: Seq<u8>, pointer: Seq<char>) -> Result<Option<Seq<char>>, Seq<char>>;

/// Calls `serde_json::from_slice::<serde_json::Value>` on `bytes`, then
/// `Value::pointer`, and writes the value found with `Value`'s `Display`
/// (compact JSON). Trusted: the outcome is the crate's, as named by
/// `json_value_at`; nothing more is claimed of it.
#[verifier::external_body]
pub(crate) fn value_at_pointer(bytes: &[u8], pointer: &str) -> (r: Result<Option<String>, String>)
    ensures
        match (r, json_value_at(bytes@, pointer@)) {
            (Ok(Some(s)), Ok(Some(t))) => s@ == t,
            (Ok(None), Ok(None)) => true,
            (Err(m), Err(t)) => m@ == t,
            _ => false,
        },
{
    match serde_json::from_slice::<serde_json::Value>(bytes) {
        Err(e) => Err(e.to_string()),
        Ok(v) => match v.pointer(pointer) {
            Some(found) => Ok(Some(found.to_string())),
            None => Ok(None),
        },
    }
}

} // verus!
