use vstd::prelude::*;

verus! {

/// The integer that the JSON object in `text` holds under `key`: `None`
/// when the text is not JSON, is not an object, lacks the key, or holds
/// there something that is not an integer within `i64`.
pub uninterp spec fn json_int_field(text: Seq<char>, key: Seq<char>) -> Option<i64>;

/// Reads an integer field of the JSON object in `text`
/// (`serde_json::from_str::<serde_json::Value>`, then `Value::get` and
/// `Value::as_i64` on what it gives).
///
/// Trusted: the contract names the result `json_int_field(text, key)`; it
/// depends on the text and the key alone.
#[verifier::external_body]
pub(crate) fn read_json_int_field(text: &str, key: &str) -> (r: Option<i64>)
    ensures
        r == json_int_field(text@, key@),
{
    match serde_json::from_str::<serde_json::Value>(text) {
        Ok(value) => match value.get(key) {
            Some(field) => field.as_i64(),
            None => None,
        },
        Err(_) => None,
    }
}

} // verus!
