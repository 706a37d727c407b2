use vstd::prelude::*;

verus! {

/// The failure modes of the signing / verification / encryption engine.
///
/// A signature mismatch is not an error: the verifying operations report it
/// as an ordinary `false` result. These variants cover the cases where an
/// operation could not run at all.
#[derive(Debug, Clone, Copy, PartialEq, Eq, Structural)]
pub enum ProcessError {
    /// A stream could not be opened or read to completion.
    IoError,
    /// Loaded key, nonce or signature bytes do not match the algorithm's
    /// fixed size.
    InvalidKeyLength,
    /// Base64 or byte-stream decoding failed.
    DecodeError,
    /// The requested operation is not defined for the chosen format.
    UnsupportedFormat,
    /// An authenticated decryption found a mismatched tag.
    AuthenticationFailure,
}

impl ProcessError {
    /// A short human-readable description of the error.
    pub fn message(&self) -> (r: &'static str)
        ensures
            r@ == self.message_spec(),
    {
        match self {
            ProcessError::IoError => "io error",
            ProcessError::InvalidKeyLength => "invalid key length",
            ProcessError::DecodeError => "decode error",
            ProcessError::UnsupportedFormat => "Unsupported format",
            ProcessError::AuthenticationFailure => "authentication failure",
        }
    }

    /// What `message` returns, as a sequence of characters.
    pub open spec fn message_spec(&self) -> Seq<char> {
        match self {
            ProcessError::IoError => "io error"@,
            ProcessError::InvalidKeyLength => "invalid key length"@,
            ProcessError::DecodeError => "decode error"@,
            ProcessError::UnsupportedFormat => "Unsupported format"@,
            ProcessError::AuthenticationFailure => "authentication failure"@,
        }
    }
}

} // verus!
