//! The binary-to-text step: an image payload arrives as base64 text and is
//! decoded to raw bytes before it can be transmitted.

use vstd::prelude::*;
use base64::Engine;

verus! {

/// The byte sequence that standard base64 decoding yields for `s`, or `None`
/// where `s` is not valid standard base64.
pub uninterp spec fn base64_decoded(s: Seq<char>) -> Option<Seq<u8>>;

/// The standard base64 text that encodes the bytes `b`.
pub uninterp spec fn base64_encoded(b: Seq<u8>) -> Seq<char>;

/// Relies on base64's `Engine::decode` with the standard engine: it yields the
/// decoded bytes exactly when the input is valid standard base64, and the
/// outcome depends on the input characters alone.
#[verifier::external_body]
pub(crate) fn base64_decode(s: &str) -> (r: Option<Vec<u8>>)
    ensures
        match r {
            Some(b) => base64_decoded(s@) == Some(b@),
            None => base64_decoded(s@) is None,
        },
{
    base64::engine::general_purpose::STANDARD.decode(s).ok()
}

/// Relies on base64's `Engine::encode` with the standard engine: it yields the
/// base64 text of the input bytes, and decoding that text with the same engine
/// yields the input bytes back.
#[verifier::external_body]
pub(crate) fn base64_encode(b: &[u8]) -> (r: String)
    ensures
        r@ == base64_encoded(b@),
        base64_decoded(r@) == Some(b@),
{
    base64::engine::general_purpose::STANDARD.encode(b)
}

/// The error string returned when a payload is not valid base64.
pub open spec fn decode_failure_message() -> Seq<char> {
    "invalid base64 image payload"@
}

/// Decode a base64-encoded image payload into raw bytes; a payload that is not
/// valid base64 yields the decode error, never a byte sequence.
pub fn decode_image(image: &str) -> (r: Result<Vec<u8>, String>)
    ensures
        match r {
            Ok(b) => base64_decoded(image@) == Some(b@),
            Err(e) => base64_decoded(image@) is None && e@ == decode_failure_message(),
        },
{
    match base64_decode(image) {
        Some(b) => Ok(b),
        None => Err("invalid base64 image payload".to_owned()),
    }
}

/// Law: decoding the base64 encoding of any byte sequence yields exactly those
/// bytes back, so an encoded payload always reaches transmission unchanged.
pub fn encode_decode_round_trip(b: &[u8]) -> (r: Vec<u8>)
    ensures
        r@ == b@,
        base64_decoded(base64_encoded(b@)) == Some(b@),
{
    let encoded = base64_encode(b);
    match base64_decode(encoded.as_str()) {
        Some(v) => v,
        None => {
            proof {
                assert(false);
            }
            Vec::new()
        },
    }
}

} // verus!
