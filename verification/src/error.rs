use vstd::prelude::*;

verus! {

/// Why a signing, verification or parsing request was turned down.
#[derive(Debug, Clone, Copy, PartialEq, Eq, Structural)]
pub enum TextError {
    /// The key material is shorter than the format requires.
    InvalidKeyLength,
    /// The key bytes have the wrong width for the algorithm, or do not
    /// encode a key of the algorithm.
    MalformedKey,
    /// The tag does not have the byte width that the format produces.
    MalformedSignature,
    /// The input stream failed while it was being consumed. Raised by the
    /// caller that owns the stream; the library itself only sees bytes.
    StreamReadFailure,
    /// The format token names no signing format.
    UnknownFormat,
}

impl TextError {
    /// A short human-readable description of the error.
    pub fn message(&self) -> (text: &'static str)
        ensures
            text@ == self.message_text(),
    {
        match self {
            TextError::InvalidKeyLength => "key material is too short",
            TextError::MalformedKey => "key cannot be parsed",
            TextError::MalformedSignature => "signature has the wrong length",
            TextError::StreamReadFailure => "input could not be read",
            TextError::UnknownFormat => "Invalid format",
        }
    }

    /// The description that [`TextError::message`] returns.
    pub open spec fn message_text(&self) -> Seq<char> {
        match self {
            TextError::InvalidKeyLength => "key material is too short"@,
            TextError::MalformedKey => "key cannot be parsed"@,
            TextError::MalformedSignature => "signature has the wrong length"@,
            TextError::StreamReadFailure => "input could not be read"@,
            TextError::UnknownFormat => "Invalid format"@,
        }
    }
}

} // verus!
