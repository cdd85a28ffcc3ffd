//! Decoding of inbound shadow payloads: bytes to text, text to a JSON
//! well-formedness verdict. A payload that fails either step is a decode
//! failure, isolated to that one event.

use vstd::prelude::*;
use vstd::utf8::decode_utf8;
use vstd::utf8::valid_utf8;

verus! {

/// Whether serde_json parses this text as one JSON document. The verdict is
/// a function of the characters alone.
pub uninterp spec fn json_wf(s: Seq<char>) -> bool;

/// Relies on str::from_utf8: `Ok` exactly on valid UTF-8, and the returned
/// text is the decoding of the bytes.
#[verifier::external_body]
pub fn bytes_to_utf8(b: &[u8]) -> (r: Option<String>)
    ensures
        r is Some <==> valid_utf8(b@),
        r matches Some(s) ==> s@ == decode_utf8(b@),
{
    match std::str::from_utf8(b) {
        Ok(s) => Some(s.to_owned()),
        Err(_) => None,
    }
}

/// Relies on serde_json::from_str::<serde_json::Value>: `Ok` exactly when
/// the text is one well-formed JSON document.
#[verifier::external_body]
pub fn json_text_ok(s: &str) -> (r: bool)
    ensures
        r == json_wf(s@),
{
    serde_json::from_str::<serde_json::Value>(s).is_ok()
}

/// A payload decodes when its bytes are valid UTF-8 whose text is one
/// well-formed JSON document.
pub open spec fn spec_decode_ok(b: Seq<u8>) -> bool {
    valid_utf8(b) && json_wf(decode_utf8(b))
}

/// Decode a shadow payload: the text of its bytes, or nothing when the
/// bytes are not UTF-8 or the text is not JSON.
pub fn decode_payload(b: &[u8]) -> (r: Option<String>)
    ensures
        r is Some <==> spec_decode_ok(b@),
        r matches Some(s) ==> s@ == decode_utf8(b@),
{
    match bytes_to_utf8(b) {
        None => None,
        Some(s) => {
            if json_text_ok(s.as_str()) {
                Some(s)
            } else {
                None
            }
        },
    }
}

} // verus!
