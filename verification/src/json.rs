//! A narrow, trusted window onto JSON documents: looking up one string
//! field of a top-level object.

use vstd::prelude::*;

verus! {

/// The string under `key` of the JSON document's top-level object: `None`
/// where the bytes are not a JSON object, the key is missing, or the value
/// there is not a string.
pub uninterp spec fn spec_json_str(data: Seq<u8>, key: Seq<char>) -> Option<Seq<char>>;

/// Relies on serde_json::from_slice::<Value>, Value::get and Value::as_str:
/// the looked-up string is a function of the document bytes and the key
/// alone, present exactly when the document is an object with a string
/// there.
#[verifier::external_body]
pub(crate) fn json_lookup_str(data: &[u8], key: &str) -> (r: Option<String>)
    ensures
        r is Some <==> spec_json_str(data@, key@) is Some,
        r is Some ==> r.unwrap()@ == spec_json_str(data@, key@).unwrap(),
{
    let v: serde_json::Value = match serde_json::from_slice(data) {
        Ok(v) => v,
        Err(_) => return None,
    };
    Some(v.get(key)?.as_str()?.to_owned())
}

} // verus!
