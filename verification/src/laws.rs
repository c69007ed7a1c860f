//! What holds of signing, verification and key generation on every input.

use crate::error::TextError;
use crate::format::TextSignFormat;
use crate::generate::is_key_set;
use crate::primitives::ed25519_key_parses;
use crate::text::{matching_key, sign_outcome, verify_outcome};
use vstd::prelude::*;

verus! {

/// Whether key material is accepted for verification in a format: at least
/// 32 bytes for the keyed hash, exactly 32 bytes that encode a verifying key
/// for public-key signatures.
pub open spec fn verifies_with(key: Seq<u8>, format: TextSignFormat) -> bool {
    match format {
        TextSignFormat::Blake3 => key.len() >= 32,
        TextSignFormat::Ed25519 => key.len() == 32 && ed25519_key_parses(key),
    }
}

/// A key of fewer than 32 bytes is turned down as too short, in every
/// format, by signing and by verification alike, whatever the tag.
pub proof fn lemma_short_key_is_rejected(
    message: Seq<u8>,
    key: Seq<u8>,
    sig: Seq<u8>,
    format: TextSignFormat,
)
    requires
        key.len() < 32,
    ensures
        sign_outcome(message, key, format) == Err::<Seq<u8>, TextError>(
            TextError::InvalidKeyLength,
        ),
        verify_outcome(message, key, sig, format) == Err::<bool, TextError>(
            TextError::InvalidKeyLength,
        ),
{
}

/// Under an accepted key, a tag of the wrong width is an error, never a
/// plain `false`.
pub proof fn lemma_wrong_width_tag_is_rejected(
    message: Seq<u8>,
    key: Seq<u8>,
    sig: Seq<u8>,
    format: TextSignFormat,
)
    requires
        verifies_with(key, format),
        sig.len() != format.tag_len(),
    ensures
        verify_outcome(message, key, sig, format) == Err::<bool, TextError>(
            TextError::MalformedSignature,
        ),
{
}

/// Under an accepted key, verifying a tag of the right width never fails: a
/// tag that does not match is `Ok(false)`, not an error.
pub proof fn lemma_well_formed_tag_is_judged(
    message: Seq<u8>,
    key: Seq<u8>,
    sig: Seq<u8>,
    format: TextSignFormat,
)
    requires
        verifies_with(key, format),
        sig.len() == format.tag_len(),
    ensures
        verify_outcome(message, key, sig, format) is Ok,
{
}

/// For the keyed hash, a 32-byte tag is accepted exactly when it is the tag
/// that signing the message under the key gives. Changing any byte of a tag
/// that verifies therefore makes it fail.
pub proof fn lemma_keyed_hash_tag_is_exact(message: Seq<u8>, key: Seq<u8>, sig: Seq<u8>)
    requires
        key.len() >= 32,
        sig.len() == 32,
    ensures
        verify_outcome(message, key, sig, TextSignFormat::Blake3) == Ok::<bool, TextError>(
            sign_outcome(message, key, TextSignFormat::Blake3) == Ok::<Seq<u8>, TextError>(sig),
        ),
{
}

/// The keyed hash reads only the first 32 bytes of its key: keys that agree
/// there sign alike and verify alike.
pub proof fn lemma_keyed_hash_ignores_key_tail(
    message: Seq<u8>,
    key: Seq<u8>,
    other: Seq<u8>,
    sig: Seq<u8>,
)
    requires
        key.len() >= 32,
        other.len() >= 32,
        key.subrange(0, 32) == other.subrange(0, 32),
    ensures
        sign_outcome(message, key, TextSignFormat::Blake3) == sign_outcome(
            message,
            other,
            TextSignFormat::Blake3,
        ),
        verify_outcome(message, key, sig, TextSignFormat::Blake3) == verify_outcome(
            message,
            other,
            sig,
            TextSignFormat::Blake3,
        ),
{
}

/// Generated artifacts fit the signer and the verifier as they are: the first
/// artifact signs every message, the last one is accepted for verification,
/// and the last is the key that matches the first.
pub proof fn lemma_key_set_fits(
    artifacts: Seq<(Seq<char>, Seq<u8>)>,
    format: TextSignFormat,
    message: Seq<u8>,
)
    requires
        is_key_set(artifacts, format),
    ensures
        sign_outcome(message, artifacts.first().1, format) is Ok,
        verifies_with(artifacts.last().1, format),
        artifacts.last().1 == matching_key(artifacts.first().1, format),
        artifacts.len() == match format {
            TextSignFormat::Blake3 => 1nat,
            TextSignFormat::Ed25519 => 2nat,
        },
{
}

} // verus!
