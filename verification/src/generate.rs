//! Key generation: fresh key material, packaged as named artifacts.

use crate::error::TextError;
use crate::format::TextSignFormat;
use crate::gen_pass::{as_text, is_password, lemma_bytes_of, process_genpass};
use crate::primitives::{ed25519_fresh_key, ed25519_key_parses, ed25519_verifying_key};
use crate::text::{asymmetric_key_width, sign_outcome, verify_outcome, Blake3, Ed25519Signer};
use vstd::prelude::*;
use vstd::slice::slice_to_vec;

verus! {

/// Named artifacts, each taken by its view: the name as text, the content as
/// bytes.
pub open spec fn artifact_views(artifacts: Seq<(&'static str, Vec<u8>)>) -> Seq<
    (Seq<char>, Seq<u8>),
> {
    Seq::new(artifacts.len(), |i: int| (artifacts[i].0@, artifacts[i].1@))
}

/// The artifacts that a format makes of secret key material, or the reason
/// why the material cannot serve as a key. The keyed hash stores the secret
/// as it is; public-key signing stores the signing key and the verifying key
/// derived from it.
pub open spec fn artifacts_of(secret: Seq<u8>, format: TextSignFormat) -> Result<
    Seq<(Seq<char>, Seq<u8>)>,
    TextError,
> {
    match format {
        TextSignFormat::Blake3 => if secret.len() < 32 {
            Err(TextError::InvalidKeyLength)
        } else {
            Ok(seq![("blake3.txt"@, secret)])
        },
        TextSignFormat::Ed25519 => match asymmetric_key_width(secret) {
            Err(e) => Err(e),
            Ok(_) => Ok(
                seq![("ed25519.sk"@, secret), ("ed25519.pk"@, ed25519_verifying_key(secret))],
            ),
        },
    }
}

/// What key generation promises of its artifacts, whatever the random source
/// gave: they are what the format makes of a 32-byte secret, the secret of
/// the keyed hash is a password over all four character classes, and the
/// verifying key of a pair encodes a key.
pub open spec fn is_key_set(artifacts: Seq<(Seq<char>, Seq<u8>)>, format: TextSignFormat) -> bool {
    &&& artifacts.len() > 0
    &&& artifacts[0].1.len() == 32
    &&& artifacts_of(artifacts[0].1, format) == Ok::<Seq<(Seq<char>, Seq<u8>)>, TextError>(
        artifacts,
    )
    &&& match format {
        TextSignFormat::Blake3 => is_password(as_text(artifacts[0].1), 32, true, true, true, true),
        TextSignFormat::Ed25519 => artifacts[1].1.len() == 32 && ed25519_key_parses(
            artifacts[1].1,
        ),
    }
}

/// A fallible artifact set with the artifacts taken by their views.
pub open spec fn key_set_view(made: Result<Vec<(&'static str, Vec<u8>)>, TextError>) -> Result<
    Seq<(Seq<char>, Seq<u8>)>,
    TextError,
> {
    match made {
        Ok(artifacts) => Ok(artifact_views(artifacts@)),
        Err(e) => Err(e),
    }
}

/// Packages secret key material as the artifacts of a format. This is key
/// generation with the random source taken out: the same secret always gives
/// the same artifacts.
pub fn key_artifacts(secret: &[u8], format: TextSignFormat) -> (made: Result<
    Vec<(&'static str, Vec<u8>)>,
    TextError,
>)
    ensures
        key_set_view(made) == artifacts_of(secret@, format),
        made matches Ok(artifacts) ==> (format == TextSignFormat::Ed25519 ==> artifacts@[1].1@.len()
            == 32 && ed25519_key_parses(artifacts@[1].1@)),
{
    let mut artifacts: Vec<(&'static str, Vec<u8>)> = Vec::new();
    match format {
        TextSignFormat::Blake3 => {
            if secret.len() < 32 {
                return Err(TextError::InvalidKeyLength);
            }
            artifacts.push(("blake3.txt", slice_to_vec(secret)));
        },
        TextSignFormat::Ed25519 => {
            let signer = Ed25519Signer::try_new(secret)?;
            let verifying = signer.verifying_key();
            artifacts.push(("ed25519.sk", slice_to_vec(secret)));
            artifacts.push(("ed25519.pk", slice_to_vec(verifying.as_slice())));
        },
    }
    assert(artifact_views(artifacts@) =~= artifacts_of(secret@, format)->Ok_0);
    Ok(artifacts)
}

impl Blake3 {
    /// Generates a hash key: a fresh 32-character password over all four
    /// character classes, stored as `blake3.txt`.
    pub fn generate() -> (made: Result<Vec<(&'static str, Vec<u8>)>, TextError>)
        ensures
            made matches Ok(artifacts) && is_key_set(
                artifact_views(artifacts@),
                TextSignFormat::Blake3,
            ),
    {
        match process_genpass(32, true, true, true, true) {
            Ok(password) => {
                proof {
                    lemma_bytes_of(password@, 32, true, true, true, true);
                }
                key_artifacts(password.as_str().as_bytes(), TextSignFormat::Blake3)
            },
            Err(_) => Err(TextError::MalformedKey),
        }
    }
}

impl Ed25519Signer {
    /// Generates a key pair: a fresh signing key, stored as `ed25519.sk`, and
    /// its verifying key, stored as `ed25519.pk`.
    pub fn generate() -> (made: Result<Vec<(&'static str, Vec<u8>)>, TextError>)
        ensures
            made matches Ok(artifacts) && is_key_set(
                artifact_views(artifacts@),
                TextSignFormat::Ed25519,
            ),
    {
        let secret = ed25519_fresh_key();
        key_artifacts(secret.as_slice(), TextSignFormat::Ed25519)
    }
}

/// Generates the key artifacts of a format from fresh randomness. No two
/// calls need agree; what is promised holds of every outcome.
pub fn process_text_generate(format: TextSignFormat) -> (made: Result<
    Vec<(&'static str, Vec<u8>)>,
    TextError,
>)
    ensures
        made matches Ok(artifacts) && is_key_set(artifact_views(artifacts@), format),
{
    match format {
        TextSignFormat::Blake3 => Blake3::generate(),
        TextSignFormat::Ed25519 => Ed25519Signer::generate(),
    }
}

} // verus!
