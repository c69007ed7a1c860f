use vstd::prelude::*;
use vstd::string::StringExecFns;
use crate::error::TextError;

verus! {

/// The signing scheme that handles a sign, verify or generate request.
#[derive(Debug, Clone, Copy, PartialEq, Eq, Structural)]
pub enum TextSignFormat {
    /// Keyed hash: one 32-byte secret key, 32-byte tags.
    Blake3,
    /// Public-key signatures: a 32-byte signing key, a 32-byte verifying
    /// key, 64-byte tags.
    Ed25519,
}

impl TextSignFormat {
    /// The token that names this format.
    pub open spec fn token(self) -> Seq<char> {
        match self {
            TextSignFormat::Blake3 => "blake3"@,
            TextSignFormat::Ed25519 => "ed25519"@,
        }
    }

    /// Number of bytes in a tag of this format.
    pub open spec fn tag_len(self) -> nat {
        match self {
            TextSignFormat::Blake3 => 32,
            TextSignFormat::Ed25519 => 64,
        }
    }

    /// The text that [`TextSignFormat::name`] returns.
    pub open spec fn spec_name(self) -> &'static str {
        match self {
            TextSignFormat::Blake3 => "blake3",
            TextSignFormat::Ed25519 => "ed25519",
        }
    }

    /// The token that names this format, as text.
    #[verifier::when_used_as_spec(spec_name)]
    pub fn name(self) -> (text: &'static str)
        ensures
            text == self.spec_name(),
            text@ == self.token(),
    {
        match self {
            TextSignFormat::Blake3 => "blake3",
            TextSignFormat::Ed25519 => "ed25519",
        }
    }
}

/// What [`parse_format`] makes of a token: the format it names, or
/// `UnknownFormat` when it names none.
pub open spec fn parsed_format(token: Seq<char>) -> Result<TextSignFormat, TextError> {
    if token == TextSignFormat::Blake3.token() {
        Ok(TextSignFormat::Blake3)
    } else if token == TextSignFormat::Ed25519.token() {
        Ok(TextSignFormat::Ed25519)
    } else {
        Err(TextError::UnknownFormat)
    }
}

/// Reads a format token. Only the exact tokens `blake3` and `ed25519` are
/// accepted; anything else is an error, never a default.
pub fn parse_format(format: &str) -> (parsed: Result<TextSignFormat, TextError>)
    ensures
        parsed == parsed_format(format@),
{
    let given = String::from_str(format);
    if given == String::from_str("blake3") {
        Ok(TextSignFormat::Blake3)
    } else if given == String::from_str("ed25519") {
        Ok(TextSignFormat::Ed25519)
    } else {
        Err(TextError::UnknownFormat)
    }
}

impl std::str::FromStr for TextSignFormat {
    type Err = TextError;

    /// Reads a format token, as [`parse_format`] does: the format that the
    /// token names, or `UnknownFormat` when it names none.
    fn from_str(s: &str) -> (parsed: Result<TextSignFormat, TextError>)
        ensures
            parsed == parsed_format(s@),
    {
        parse_format(s)
    }
}

impl From<TextSignFormat> for &'static str {
    /// The token that names the format.
    fn from(format: TextSignFormat) -> (text: &'static str) {
        format.name()
    }
}

impl vstd::std_specs::convert::FromSpecImpl<TextSignFormat> for &'static str {
    open spec fn obeys_from_spec() -> bool {
        true
    }

    open spec fn from_spec(format: TextSignFormat) -> &'static str {
        format.spec_name()
    }
}

/// Every format is named by a token that parses back to it.
pub proof fn lemma_token_parses_back(format: TextSignFormat)
    ensures
        parsed_format(format.token()) == Ok::<TextSignFormat, TextError>(format),
{
    reveal_strlit("blake3");
    reveal_strlit("ed25519");
    assert("blake3"@.len() != "ed25519"@.len());
}

} // verus!
