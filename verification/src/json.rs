//! JSON documents as text. Reading and writing JSON is left to `serde_json`.

use vstd::prelude::*;

verus! {

/// The text that `serde_json` writes for the JSON document it reads from
/// `bytes`, or `None` where it reads none from them.
pub uninterp spec fn json_decoded(bytes: Seq<u8>) -> Option<Seq<char>>;

/// Reads `bytes` with `serde_json::from_slice` as a `serde_json::Value` and
/// writes the value back with its `to_string`. The contract gives that outcome
/// its name and claims nothing else of it: the same bytes give the same text,
/// and bytes that are no JSON document give `None`.
#[verifier::external_body]
pub(crate) fn decode_json(bytes: &[u8]) -> (text: Option<String>)
    ensures
        match text {
            Some(t) => json_decoded(bytes@) == Some(t@),
            None => json_decoded(bytes@).is_none(),
        },
{
    match serde_json::from_slice::<serde_json::Value>(bytes) {
        Ok(value) => Some(value.to_string()),
        Err(_) => None,
    }
}

} // verus!
