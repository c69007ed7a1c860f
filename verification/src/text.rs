//! Signers and verifiers over whole messages, and the routing functions that
//! pick one by format.

use crate::error::TextError;
use crate::format::TextSignFormat;
use crate::primitives::{
    ed25519_accepts, ed25519_derive, ed25519_key_parses, ed25519_parses, ed25519_sign,
    ed25519_signature, ed25519_verify, ed25519_verifying_key, keyed_hash, keyed_hash_digest,
};
use vstd::prelude::*;
use vstd::slice::slice_to_vec;

verus! {

/// A fallible tag with the tag taken by its view.
pub open spec fn tag_view(tag: Result<Vec<u8>, TextError>) -> Result<Seq<u8>, TextError> {
    match tag {
        Ok(bytes) => Ok(bytes@),
        Err(e) => Err(e),
    }
}

/// Something that can attach a tag to a message.
pub trait TextSign {
    /// What `sign` makes of a message.
    spec fn signed(&self, message: Seq<u8>) -> Result<Seq<u8>, TextError>;

    /// Signs the whole message. The empty message is a message like any other.
    fn sign(&self, message: &[u8]) -> (tag: Result<Vec<u8>, TextError>)
        ensures
            tag_view(tag) == self.signed(message@),
    ;
}

/// Something that can check a tag against a message.
pub trait TextVerify {
    /// What `verify` makes of a message and a tag.
    spec fn verified(&self, message: Seq<u8>, sig: Seq<u8>) -> Result<bool, TextError>;

    /// Checks `sig` against the whole message. A tag of the right shape that
    /// does not match is `Ok(false)`; only a tag of the wrong shape is an error.
    fn verify(&self, message: &[u8], sig: &[u8]) -> (verdict: Result<bool, TextError>)
        ensures
            verdict == self.verified(message@, sig@),
    ;
}

/// Keyed-hash signer and verifier. Holds the 32-byte hash key.
pub struct Blake3 {
    key: [u8; 32],
}

/// Public-key signer. Holds the 32-byte signing key and the verifying key
/// that belongs to it.
pub struct Ed25519Signer {
    key: [u8; 32],
    verifying: [u8; 32],
}

/// Public-key verifier. Holds 32 bytes that encode a verifying key.
pub struct Ed25519Verifyer {
    key: [u8; 32],
}

/// Copies the first `N` bytes of a slice into an array.
fn leading_bytes<const N: usize>(bytes: &[u8]) -> (head: [u8; N])
    requires
        bytes@.len() >= N,
    ensures
        head@ == bytes@.subrange(0, N as int),
{
    let mut head = [0u8; N];
    let mut i: usize = 0;
    while i < N
        invariant
            i <= N,
            bytes@.len() >= N,
            head@.len() == N,
            forall|j: int| 0 <= j < i ==> head@[j] == bytes@[j],
        decreases N - i,
    {
        head[i] = bytes[i];
        i += 1;
    }
    assert(head@ =~= bytes@.subrange(0, N as int));
    head
}

/// Whether two byte strings are equal.
fn same_bytes(left: &[u8], right: &[u8]) -> (same: bool)
    ensures
        same == (left@ == right@),
{
    if left.len() != right.len() {
        return false;
    }
    let mut i: usize = 0;
    while i < left.len()
        invariant
            i <= left@.len(),
            left@.len() == right@.len(),
            forall|j: int| 0 <= j < i ==> left@[j] == right@[j],
        decreases left@.len() - i,
    {
        if left[i] != right[i] {
            return false;
        }
        i += 1;
    }
    assert(left@ =~= right@);
    true
}

impl View for Blake3 {
    type V = Seq<u8>;

    /// The hash key.
    closed spec fn view(&self) -> Seq<u8> {
        self.key@
    }
}

impl Blake3 {
    /// Builds the signer from key material. At least 32 bytes are needed;
    /// bytes past the first 32 are ignored.
    pub fn try_new(key: &[u8]) -> (made: Result<Blake3, TextError>)
        ensures
            key@.len() < 32 ==> made == Err::<Blake3, TextError>(TextError::InvalidKeyLength),
            key@.len() >= 32 ==> made is Ok && made->Ok_0@ == key@.subrange(0, 32),
    {
        if key.len() < 32 {
            return Err(TextError::InvalidKeyLength);
        }
        Ok(Blake3 { key: leading_bytes::<32>(key) })
    }
}

impl TextSign for Blake3 {
    open spec fn signed(&self, message: Seq<u8>) -> Result<Seq<u8>, TextError> {
        Ok(keyed_hash_digest(self@, message))
    }

    /// Besides the tag itself, the caller learns that it is 32 bytes long.
    fn sign(&self, message: &[u8]) -> (tag: Result<Vec<u8>, TextError>)
        ensures
            tag matches Ok(t) ==> t@.len() == 32,
    {
        let digest = keyed_hash(&self.key, message);
        Ok(slice_to_vec(digest.as_slice()))
    }
}

impl TextVerify for Blake3 {
    open spec fn verified(&self, message: Seq<u8>, sig: Seq<u8>) -> Result<bool, TextError> {
        if sig.len() != 32 {
            Err(TextError::MalformedSignature)
        } else {
            Ok(keyed_hash_digest(self@, message) == sig)
        }
    }

    fn verify(&self, message: &[u8], sig: &[u8]) -> (verdict: Result<bool, TextError>) {
        if sig.len() != 32 {
            return Err(TextError::MalformedSignature);
        }
        let digest = keyed_hash(&self.key, message);
        Ok(same_bytes(digest.as_slice(), sig))
    }
}

impl View for Ed25519Signer {
    type V = Seq<u8>;

    /// The signing key.
    closed spec fn view(&self) -> Seq<u8> {
        self.key@
    }
}

/// What remains to be checked of asymmetric key material once its bytes are
/// known: fewer than 32 bytes are too short, more than 32 are not a key.
pub open spec fn asymmetric_key_width(key: Seq<u8>) -> Result<(), TextError> {
    if key.len() < 32 {
        Err(TextError::InvalidKeyLength)
    } else if key.len() > 32 {
        Err(TextError::MalformedKey)
    } else {
        Ok(())
    }
}

impl Ed25519Signer {
    #[verifier::type_invariant]
    spec fn keys_are_paired(&self) -> bool {
        &&& self.verifying@ == ed25519_verifying_key(self.key@)
        &&& ed25519_key_parses(self.verifying@)
    }

    /// Wraps a signing key and derives its verifying key. Every 32 bytes are
    /// a signing key.
    pub fn new(key: [u8; 32]) -> (made: Ed25519Signer)
        ensures
            made@ == key@,
    {
        let verifying = ed25519_derive(&key);
        Ed25519Signer { key, verifying }
    }

    /// The verifying key that accepts what this signer signs.
    pub fn verifying_key(&self) -> (verifying: [u8; 32])
        ensures
            verifying@ == ed25519_verifying_key(self@),
            ed25519_key_parses(verifying@),
    {
        proof {
            use_type_invariant(self);
        }
        self.verifying
    }

    /// Builds the signer from key material of exactly 32 bytes.
    pub fn try_new(key: &[u8]) -> (made: Result<Ed25519Signer, TextError>)
        ensures
            asymmetric_key_width(key@) matches Err(e) ==> made == Err::<Ed25519Signer, TextError>(e),
            asymmetric_key_width(key@) is Ok ==> made is Ok && made->Ok_0@ == key@,
    {
        if key.len() < 32 {
            return Err(TextError::InvalidKeyLength);
        }
        if key.len() > 32 {
            return Err(TextError::MalformedKey);
        }
        let bytes = leading_bytes::<32>(key);
        assert(key@.subrange(0, 32) =~= key@);
        Ok(Ed25519Signer::new(bytes))
    }
}

impl TextSign for Ed25519Signer {
    open spec fn signed(&self, message: Seq<u8>) -> Result<Seq<u8>, TextError> {
        Ok(ed25519_signature(self@, message))
    }

    /// Besides the tag itself, the caller learns that the verifying key of
    /// this signing key accepts it.
    fn sign(&self, message: &[u8]) -> (tag: Result<Vec<u8>, TextError>)
        ensures
            tag matches Ok(t) ==> t@.len() == 64 && verify_outcome(
                message@,
                ed25519_verifying_key(self@),
                t@,
                TextSignFormat::Ed25519,
            ) == Ok::<bool, TextError>(true),
    {
        proof {
            use_type_invariant(self);
        }
        let signature = ed25519_sign(&self.key, message);
        Ok(slice_to_vec(signature.as_slice()))
    }
}

impl View for Ed25519Verifyer {
    type V = Seq<u8>;

    /// The verifying key.
    closed spec fn view(&self) -> Seq<u8> {
        self.key@
    }
}

impl Ed25519Verifyer {
    #[verifier::type_invariant]
    spec fn key_is_valid(&self) -> bool {
        ed25519_key_parses(self.key@)
    }

    /// Wraps 32 bytes that are known to encode a verifying key.
    pub fn new(key: [u8; 32]) -> (made: Ed25519Verifyer)
        requires
            ed25519_key_parses(key@),
        ensures
            made@ == key@,
    {
        Ed25519Verifyer { key }
    }

    /// Builds the verifier from key material: exactly 32 bytes that encode a
    /// verifying key.
    pub fn try_new(key: &[u8]) -> (made: Result<Ed25519Verifyer, TextError>)
        ensures
            asymmetric_key_width(key@) matches Err(e) ==> made == Err::<Ed25519Verifyer, TextError>(e),
            asymmetric_key_width(key@) is Ok && !ed25519_key_parses(key@) ==> made == Err::<
                Ed25519Verifyer,
                TextError,
            >(TextError::MalformedKey),
            asymmetric_key_width(key@) is Ok && ed25519_key_parses(key@) ==> made is Ok
                && made->Ok_0@ == key@,
    {
        if key.len() < 32 {
            return Err(TextError::InvalidKeyLength);
        }
        if key.len() > 32 {
            return Err(TextError::MalformedKey);
        }
        let bytes = leading_bytes::<32>(key);
        assert(key@.subrange(0, 32) =~= key@);
        if !ed25519_parses(&bytes) {
            return Err(TextError::MalformedKey);
        }
        Ok(Ed25519Verifyer::new(bytes))
    }
}

impl TextVerify for Ed25519Verifyer {
    open spec fn verified(&self, message: Seq<u8>, sig: Seq<u8>) -> Result<bool, TextError> {
        if sig.len() != 64 {
            Err(TextError::MalformedSignature)
        } else {
            Ok(ed25519_accepts(self@, message, sig))
        }
    }

    fn verify(&self, message: &[u8], sig: &[u8]) -> (verdict: Result<bool, TextError>) {
        if sig.len() != 64 {
            return Err(TextError::MalformedSignature);
        }
        let signature = leading_bytes::<64>(sig);
        assert(sig@.subrange(0, 64) =~= sig@);
        proof {
            use_type_invariant(self);
        }
        Ok(ed25519_verify(&self.key, message, &signature))
    }
}

/// The tag that signing `message` under `key` yields in `format`, or the
/// reason why the key is turned down. Keyed hashing uses the first 32 bytes of
/// the key; public-key signing wants exactly 32.
pub open spec fn sign_outcome(message: Seq<u8>, key: Seq<u8>, format: TextSignFormat) -> Result<
    Seq<u8>,
    TextError,
> {
    match format {
        TextSignFormat::Blake3 => if key.len() < 32 {
            Err(TextError::InvalidKeyLength)
        } else {
            Ok(keyed_hash_digest(key.subrange(0, 32), message))
        },
        TextSignFormat::Ed25519 => match asymmetric_key_width(key) {
            Err(e) => Err(e),
            Ok(_) => Ok(ed25519_signature(key, message)),
        },
    }
}

/// The verdict on `sig` as a tag of `message` under `key` in `format`. The key
/// is judged first, then the width of the tag; a tag of the right width that
/// does not match gives `Ok(false)`.
pub open spec fn verify_outcome(
    message: Seq<u8>,
    key: Seq<u8>,
    sig: Seq<u8>,
    format: TextSignFormat,
) -> Result<bool, TextError> {
    match format {
        TextSignFormat::Blake3 => if key.len() < 32 {
            Err(TextError::InvalidKeyLength)
        } else if sig.len() != 32 {
            Err(TextError::MalformedSignature)
        } else {
            Ok(keyed_hash_digest(key.subrange(0, 32), message) == sig)
        },
        TextSignFormat::Ed25519 => match asymmetric_key_width(key) {
            Err(e) => Err(e),
            Ok(_) => if !ed25519_key_parses(key) {
                Err(TextError::MalformedKey)
            } else if sig.len() != 64 {
                Err(TextError::MalformedSignature)
            } else {
                Ok(ed25519_accepts(key, message, sig))
            },
        },
    }
}

/// The key that verifies what `key` signs: the key itself for the keyed hash,
/// the derived verifying key for public-key signatures.
pub open spec fn matching_key(key: Seq<u8>, format: TextSignFormat) -> Seq<u8> {
    match format {
        TextSignFormat::Blake3 => key,
        TextSignFormat::Ed25519 => ed25519_verifying_key(key),
    }
}

/// Signs `message` under `key` with the scheme that `format` selects.
///
/// The tag is a function of the three arguments, so signing twice gives the
/// same tag. Whenever a tag is returned, verifying it against the same
/// message under the matching key succeeds.
pub fn process_text_sign(message: &[u8], key: &[u8], format: TextSignFormat) -> (tag: Result<
    Vec<u8>,
    TextError,
>)
    ensures
        tag_view(tag) == sign_outcome(message@, key@, format),
        tag matches Ok(t) ==> t@.len() == format.tag_len(),
        tag matches Ok(t) ==> verify_outcome(message@, matching_key(key@, format), t@, format)
            == Ok::<bool, TextError>(true),
{
    match format {
        TextSignFormat::Blake3 => {
            let signer = Blake3::try_new(key)?;
            signer.sign(message)
        },
        TextSignFormat::Ed25519 => {
            let signer = Ed25519Signer::try_new(key)?;
            signer.sign(message)
        },
    }
}

/// Checks `sig` against `message` under `key` with the scheme that `format`
/// selects. A malformed key or tag is an error; a well-formed tag that does
/// not match is `Ok(false)`.
pub fn process_text_verify(message: &[u8], key: &[u8], sig: &[u8], format: TextSignFormat) -> (verdict:
    Result<bool, TextError>)
    ensures
        verdict == verify_outcome(message@, key@, sig@, format),
{
    match format {
        TextSignFormat::Blake3 => {
            let verifier = Blake3::try_new(key)?;
            verifier.verify(message, sig)
        },
        TextSignFormat::Ed25519 => {
            let verifier = Ed25519Verifyer::try_new(key)?;
            verifier.verify(message, sig)
        },
    }
}

} // verus!
