//! Base64 (through the `base64` crate) and the media types of algorithm input
//! (through the `mime` crate).

use vstd::prelude::*;

verus! {

/// What `base64::decode` (standard alphabet, padded) gives for `text`: the bytes,
/// or the text of the error.
pub uninterp spec fn spec_base64_decode(text: Seq<char>) -> Result<Seq<u8>, Seq<char>>;

/// What `base64::encode` (standard alphabet, padded) gives for `bytes`.
pub uninterp spec fn spec_base64_encode(bytes: Seq<u8>) -> Seq<char>;

/// Decodes base64 text with `base64::decode`.
/// Claimed: the result is `spec_base64_decode` of the text; an error is shown
/// as `base64::DecodeError`'s `Display` shows it.
#[verifier::external_body]
pub(crate) fn base64_decode(text: &str) -> (r: Result<Vec<u8>, String>)
    ensures
        match r {
            Ok(b) => spec_base64_decode(text@) == Ok::<Seq<u8>, Seq<char>>(b@),
            Err(e) => spec_base64_decode(text@) == Err::<Seq<u8>, Seq<char>>(e@),
        },
{
    base64::decode(text).map_err(|e| e.to_string())
}

/// Encodes bytes as base64 text with `base64::encode`.
/// Claimed: the result is `spec_base64_encode` of the bytes.
#[verifier::external_body]
pub(crate) fn base64_encode(bytes: &[u8]) -> (r: String)
    ensures
        r@ == spec_base64_encode(bytes@),
{
    base64::encode(bytes)
}

/// The text of `mime::TEXT_PLAIN`. Claimed: `text/plain`.
#[verifier::external_body]
pub(crate) fn mime_text_plain() -> (r: String)
    ensures
        r@ == "text/plain"@,
{
    mime::TEXT_PLAIN.to_string()
}

/// The text of `mime::APPLICATION_JSON`. Claimed: `application/json`.
#[verifier::external_body]
pub(crate) fn mime_application_json() -> (r: String)
    ensures
        r@ == "application/json"@,
{
    mime::APPLICATION_JSON.to_string()
}

/// The text of `mime::APPLICATION_OCTET_STREAM`. Claimed: `application/octet-stream`.
#[verifier::external_body]
pub(crate) fn mime_application_octet_stream() -> (r: String)
    ensures
        r@ == "application/octet-stream"@,
{
    mime::APPLICATION_OCTET_STREAM.to_string()
}

} // verus!
