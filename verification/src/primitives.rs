//! The cryptographic primitives the library builds on. Nothing in this file
//! is proved: each function states what the underlying crate computes, and
//! the rest of the library is verified against these statements.

use ed25519_dalek::{Signature, Signer, SigningKey, Verifier, VerifyingKey};
use rand::rngs::OsRng;
use vstd::prelude::*;

verus! {

/// The digest `blake3::keyed_hash` computes from a 32-byte key and a message.
pub uninterp spec fn keyed_hash_digest(key: Seq<u8>, message: Seq<u8>) -> Seq<u8>;

/// The signature an Ed25519 signing key produces for a message.
pub uninterp spec fn ed25519_signature(signing_key: Seq<u8>, message: Seq<u8>) -> Seq<u8>;

/// The verifying key that belongs to an Ed25519 signing key.
pub uninterp spec fn ed25519_verifying_key(signing_key: Seq<u8>) -> Seq<u8>;

/// Whether 32 bytes encode an Ed25519 verifying key.
pub uninterp spec fn ed25519_key_parses(verifying_key: Seq<u8>) -> bool;

/// Whether an Ed25519 verifying key accepts a signature for a message.
pub uninterp spec fn ed25519_accepts(
    verifying_key: Seq<u8>,
    message: Seq<u8>,
    signature: Seq<u8>,
) -> bool;

/// Calls `blake3::keyed_hash`. Trusted: the 32-byte digest depends on the key
/// and the message alone.
#[verifier::external_body]
pub(crate) fn keyed_hash(key: &[u8; 32], message: &[u8]) -> (digest: [u8; 32])
    ensures
        digest@ == keyed_hash_digest(key@, message@),
{
    *blake3::keyed_hash(key, message).as_bytes()
}

/// Calls `ed25519_dalek::SigningKey::sign` on the key built by
/// `SigningKey::from_bytes`. Trusted: signing is deterministic (the nonce is
/// derived from the key and the message), and the verifying key derived from
/// the same signing key accepts the signature.
#[verifier::external_body]
pub(crate) fn ed25519_sign(signing_key: &[u8; 32], message: &[u8]) -> (signature: [u8; 64])
    ensures
        signature@ == ed25519_signature(signing_key@, message@),
        ed25519_accepts(ed25519_verifying_key(signing_key@), message@, signature@),
{
    SigningKey::from_bytes(signing_key).sign(message).to_bytes()
}

/// Calls `ed25519_dalek::SigningKey::verifying_key` on the key built by
/// `SigningKey::from_bytes`. Trusted: the verifying key depends on the signing
/// key alone, and its bytes encode a verifying key.
#[verifier::external_body]
pub(crate) fn ed25519_derive(signing_key: &[u8; 32]) -> (verifying_key: [u8; 32])
    ensures
        verifying_key@ == ed25519_verifying_key(signing_key@),
        ed25519_key_parses(verifying_key@),
{
    SigningKey::from_bytes(signing_key).verifying_key().to_bytes()
}

/// Calls `ed25519_dalek::VerifyingKey::from_bytes` and reports whether it
/// succeeded. Trusted: the answer depends on the bytes alone.
#[verifier::external_body]
pub(crate) fn ed25519_parses(verifying_key: &[u8; 32]) -> (parses: bool)
    ensures
        parses == ed25519_key_parses(verifying_key@),
{
    VerifyingKey::from_bytes(verifying_key).is_ok()
}

/// Calls `ed25519_dalek::VerifyingKey::verify` with the signature built by
/// `ed25519::Signature::from_bytes`. Trusted: the verdict depends on the key,
/// the message and the signature alone. An invalid signature is reported as
/// `false`; the key must parse.
#[verifier::external_body]
pub(crate) fn ed25519_verify(
    verifying_key: &[u8; 32],
    message: &[u8],
    signature: &[u8; 64],
) -> (accepted: bool)
    requires
        ed25519_key_parses(verifying_key@),
    ensures
        accepted == ed25519_accepts(verifying_key@, message@, signature@),
{
    match VerifyingKey::from_bytes(verifying_key) {
        Ok(key) => key.verify(message, &Signature::from_bytes(signature)).is_ok(),
        Err(_) => false,
    }
}

/// Calls `ed25519_dalek::SigningKey::generate` with the operating system's
/// random source. Nothing is promised of the 32 bytes: every call may return
/// a different key.
#[verifier::external_body]
pub(crate) fn ed25519_fresh_key() -> (signing_key: [u8; 32])
{
    let mut csprng = OsRng;
    SigningKey::generate(&mut csprng).to_bytes()
}

} // verus!
