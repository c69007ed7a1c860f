//! The options of each command and what the command computes from them. The
//! caller reads the input, the key and the switches; these functions take
//! the bytes and return what is to be shown or stored.

use crate::encoding::{base64_text, decode_tag, decoded_tag, encode_tag};
use crate::error::TextError;
use crate::format::TextSignFormat;
use crate::gen_pass::{class_count, is_password, process_genpass, GenPassError};
use crate::generate::{artifact_views, is_key_set, process_text_generate};
use crate::text::{
    matching_key, process_text_sign, process_text_verify, sign_outcome, verify_outcome,
};
use vstd::prelude::*;

verus! {

/// Options of password generation.
#[derive(Debug, Clone, Copy, PartialEq, Eq, Structural)]
pub struct GenPassOpts {
    /// Number of characters.
    pub length: u8,
    /// Whether upper-case letters may occur.
    pub uppercase: bool,
    /// Whether lower-case letters may occur.
    pub lowercase: bool,
    /// Whether digits may occur.
    pub numbers: bool,
    /// Whether symbols may occur.
    pub symbol: bool,
}

/// Calls `zxcvbn::zxcvbn` without user inputs and reads the score. Trusted:
/// the score is one of 0 to 4. It is no function of the password alone: the
/// estimate of dates in a password goes by the current year.
#[verifier::external_body]
fn strength_of(password: &str) -> (score: u8)
    ensures
        score <= 4,
{
    u8::from(zxcvbn::zxcvbn(password, &[]).score())
}

impl GenPassOpts {
    /// Whether a password can be generated: the length leaves room for one
    /// character of each class, and a password that is not empty has a class
    /// to draw from.
    pub open spec fn spec_is_satisfiable(&self) -> bool {
        let classes = class_count(self.uppercase, self.lowercase, self.numbers, self.symbol);
        classes <= self.length && (self.length > 0 ==> classes > 0)
    }

    /// Whether a password can be generated from these options.
    #[verifier::when_used_as_spec(spec_is_satisfiable)]
    pub fn is_satisfiable(&self) -> (fits: bool)
        ensures
            fits == self.spec_is_satisfiable(),
    {
        let mut classes: u8 = 0;
        if self.uppercase {
            classes += 1;
        }
        if self.lowercase {
            classes += 1;
        }
        if self.numbers {
            classes += 1;
        }
        if self.symbol {
            classes += 1;
        }
        classes <= self.length && (self.length == 0 || classes > 0)
    }

    /// Generates the password, or `None` where the options cannot be met.
    pub fn generate(&self) -> (generated: Option<Result<String, GenPassError>>)
        ensures
            generated is Some <==> self.is_satisfiable(),
            generated matches Some(made) ==> made matches Ok(password) && is_password(
                password@,
                self.length as nat,
                self.uppercase,
                self.lowercase,
                self.numbers,
                self.symbol,
            ),
    {
        if !self.is_satisfiable() {
            return None;
        }
        Some(process_genpass(self.length, self.uppercase, self.lowercase, self.numbers, self.symbol))
    }

    /// The strength of a password as estimated today, from 0 (weakest) to 4.
    pub fn strength(password: &str) -> (score: u8)
        ensures
            score <= 4,
    {
        strength_of(password)
    }
}

/// Options of signing.
pub struct TextSignOpts {
    /// Where the message comes from.
    pub input: String,
    /// Where the key comes from.
    pub key: String,
    /// The signing scheme.
    pub format: TextSignFormat,
}

/// What [`TextSignOpts::sign`] returns: the tag as text, or the reason why
/// the key is turned down.
pub open spec fn signed_text(message: Seq<u8>, key: Seq<u8>, format: TextSignFormat) -> Result<
    Seq<char>,
    TextError,
> {
    match sign_outcome(message, key, format) {
        Ok(tag) => Ok(base64_text(tag)),
        Err(e) => Err(e),
    }
}

/// A fallible text taken by its view.
pub open spec fn text_view(text: Result<String, TextError>) -> Result<Seq<char>, TextError> {
    match text {
        Ok(s) => Ok(s@),
        Err(e) => Err(e),
    }
}

impl TextSignOpts {
    /// Signs the message under the key and writes the tag as text. The text
    /// reads back as the tag, and verifies against the same message under the
    /// matching key.
    pub fn sign(&self, message: &[u8], key: &[u8]) -> (text: Result<String, TextError>)
        ensures
            text_view(text) == signed_text(message@, key@, self.format),
            text matches Ok(s) ==> decoded_tag(s@) == sign_outcome(message@, key@, self.format),
            text matches Ok(s) ==> verified_text(
                message@,
                matching_key(key@, self.format),
                s@,
                self.format,
            ) == Ok::<bool, TextError>(true),
    {
        let tag = process_text_sign(message, key, self.format)?;
        Ok(encode_tag(tag.as_slice()))
    }
}

/// Options of verification.
pub struct TextVerifyOpts {
    /// Where the message comes from.
    pub input: String,
    /// Where the key comes from.
    pub key: String,
    /// The signing scheme.
    pub format: TextSignFormat,
    /// The tag, as text.
    pub sig: String,
}

/// What [`TextVerifyOpts::verify`] returns: a tag that is no text of a tag
/// is malformed; any other is checked as its bytes are.
pub open spec fn verified_text(
    message: Seq<u8>,
    key: Seq<u8>,
    sig: Seq<char>,
    format: TextSignFormat,
) -> Result<bool, TextError> {
    match decoded_tag(sig) {
        Ok(tag) => verify_outcome(message, key, tag, format),
        Err(e) => Err(e),
    }
}

impl TextVerifyOpts {
    /// Reads the tag from its text and checks it against the message under
    /// the key.
    pub fn verify(&self, message: &[u8], key: &[u8]) -> (verdict: Result<bool, TextError>)
        ensures
            verdict == verified_text(message@, key@, self.sig@, self.format),
    {
        let tag = decode_tag(self.sig.as_str())?;
        process_text_verify(message, key, tag.as_slice(), self.format)
    }
}

/// The line that reports a verdict.
pub fn verdict_line(verified: bool) -> (line: &'static str)
    ensures
        line@ == if verified {
            "Verify success"@
        } else {
            "Verify failed"@
        },
{
    if verified {
        "Verify success"
    } else {
        "Verify failed"
    }
}

/// Options of key generation.
pub struct TextKeyGenerateOpts {
    /// The signing scheme.
    pub format: TextSignFormat,
    /// The directory that receives the artifacts.
    pub output: String,
}

impl TextKeyGenerateOpts {
    /// Generates the artifacts that are to be stored under `output`, each
    /// with its file name.
    pub fn generate(&self) -> (made: Result<Vec<(&'static str, Vec<u8>)>, TextError>)
        ensures
            made matches Ok(artifacts) && is_key_set(artifact_views(artifacts@), self.format),
    {
        process_text_generate(self.format)
    }
}

/// The commands on signed text.
pub enum TextSubCommand {
    /// Sign a message.
    Sign(TextSignOpts),
    /// Verify a tag.
    Verify(TextVerifyOpts),
    /// Generate keys.
    Generate(TextKeyGenerateOpts),
}

} // verus!
