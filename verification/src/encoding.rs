//! Tags as text: URL-safe base64 without padding. The encoding itself is the
//! `base64` crate's and is not proved here.

use crate::error::TextError;
use base64::engine::general_purpose::URL_SAFE_NO_PAD;
use base64::Engine;
use vstd::prelude::*;

verus! {

/// The text that URL-safe, unpadded base64 makes of bytes.
pub uninterp spec fn base64_text(bytes: Seq<u8>) -> Seq<char>;

/// The bytes that a text stands for in URL-safe, unpadded base64, if it
/// stands for any.
pub uninterp spec fn base64_bytes(text: Seq<char>) -> Option<Seq<u8>>;

/// Why the `base64` crate could not decode a text. Opaque.
#[verifier::external_type_specification]
#[verifier::external_body]
pub struct ExDecodeError(base64::DecodeError);

/// Calls `Engine::encode` on `URL_SAFE_NO_PAD`. Trusted: the text depends on
/// the bytes alone, and decoding it gives the bytes back.
#[verifier::external_body]
fn base64_encode(bytes: &[u8]) -> (text: String)
    ensures
        text@ == base64_text(bytes@),
        base64_bytes(text@) == Some(bytes@),
{
    URL_SAFE_NO_PAD.encode(bytes)
}

/// Calls `Engine::decode` on `URL_SAFE_NO_PAD`. Trusted: whether the text
/// decodes, and to which bytes, depends on the text alone.
#[verifier::external_body]
fn base64_decode(text: &str) -> (decoded: Result<Vec<u8>, base64::DecodeError>)
    ensures
        decoded is Ok <==> base64_bytes(text@) is Some,
        decoded matches Ok(bytes) ==> base64_bytes(text@) == Some(bytes@),
{
    URL_SAFE_NO_PAD.decode(text)
}

/// Writes a tag as text.
pub fn encode_tag(tag: &[u8]) -> (text: String)
    ensures
        text@ == base64_text(tag@),
        base64_bytes(text@) == Some(tag@),
{
    base64_encode(tag)
}

/// What [`decode_tag`] makes of a text: the bytes it stands for, or
/// `MalformedSignature` when it stands for none.
pub open spec fn decoded_tag(text: Seq<char>) -> Result<Seq<u8>, TextError> {
    match base64_bytes(text) {
        Some(bytes) => Ok(bytes),
        None => Err(TextError::MalformedSignature),
    }
}

/// Reads a tag from text. A text that is not URL-safe, unpadded base64 is a
/// malformed signature.
pub fn decode_tag(text: &str) -> (tag: Result<Vec<u8>, TextError>)
    ensures
        crate::text::tag_view(tag) == decoded_tag(text@),
{
    match base64_decode(text) {
        Ok(bytes) => Ok(bytes),
        Err(_) => Err(TextError::MalformedSignature),
    }
}

} // verus!
