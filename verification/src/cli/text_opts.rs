use vstd::prelude::*;
use vstd::string::StringSliceAdditionalSpecFns;

use crate::errors::ProcessError;
use crate::utils::{eq_ignore_ascii_case, spec_lower_bytes};

verus! {

/// The closed set of algorithm tags the engine understands. Selection
/// happens once per invocation; a value is never mutated.
#[derive(Debug, Clone, Copy, PartialEq, Eq, Structural)]
pub enum TextSignFormat {
    Blake3,
    Ed25519,
    ChaChaPoly,
}

/// The subcommands of the text tool, with their parsed options.
#[derive(Debug)]
pub enum TextSubCommand {
    Sign(TextSignOpts),
    Verify(TextVerifyOpts),
    Generate(TextKeyGenerateOpts),
    Encrypt(TextEncryptOpts),
    Decrypt(TextDecryptOpts),
}

/// Options for signing: an input source (a path, or `-` for standard
/// input), a key file path, and the algorithm tag.
#[derive(Debug)]
pub struct TextSignOpts {
    pub input: String,
    pub key: String,
    pub format: TextSignFormat,
}

/// Options for verifying: as for signing, plus the signature text.
#[derive(Debug)]
pub struct TextVerifyOpts {
    pub input: String,
    pub key: String,
    pub format: TextSignFormat,
    pub sig: String,
}

/// Options for key generation: the algorithm tag and the directory the
/// fresh key artifacts are written to.
#[derive(Debug)]
pub struct TextKeyGenerateOpts {
    pub format: TextSignFormat,
    pub output: String,
}

/// Options for encryption: the key file path and the nonce file path.
#[derive(Debug)]
pub struct TextEncryptOpts {
    pub key: String,
    pub nonce: String,
}

/// Options for decryption: the key file path and the nonce file path.
#[derive(Debug)]
pub struct TextDecryptOpts {
    pub key: String,
    pub nonce: String,
}

impl TextSignFormat {
    /// The textual name of the tag, as the command line spells it.
    pub fn as_str(&self) -> (r: &'static str)
        ensures
            r@ == self.spec_name(),
    {
        match self {
            TextSignFormat::Blake3 => "black3",
            TextSignFormat::Ed25519 => "ed25519",
            TextSignFormat::ChaChaPoly => "chacha_poly",
        }
    }

    /// What `as_str` returns, as a sequence of characters.
    pub open spec fn spec_name(&self) -> Seq<char> {
        match self {
            TextSignFormat::Blake3 => "black3"@,
            TextSignFormat::Ed25519 => "ed25519"@,
            TextSignFormat::ChaChaPoly => "chacha_poly"@,
        }
    }
}

/// Parses an algorithm tag, ignoring ASCII case. Exactly the spellings
/// `black3`, `ed25519` and `chacha_poly` are accepted.
pub fn parse_format(format: &str) -> (r: Result<TextSignFormat, ProcessError>)
    ensures
        r == spec_parse_text_sign_format(spec_lower_bytes(format.spec_bytes())),
{
    if eq_ignore_ascii_case(format, "black3") {
        Ok(TextSignFormat::Blake3)
    } else if eq_ignore_ascii_case(format, "ed25519") {
        Ok(TextSignFormat::Ed25519)
    } else if eq_ignore_ascii_case(format, "chacha_poly") {
        Ok(TextSignFormat::ChaChaPoly)
    } else {
        Err(ProcessError::UnsupportedFormat)
    }
}

/// The tag each (already lower-cased) spelling denotes.
pub open spec fn spec_parse_text_sign_format(lowered: Seq<u8>) -> Result<
    TextSignFormat,
    ProcessError,
> {
    if lowered == "black3".spec_bytes() {
        Ok(TextSignFormat::Blake3)
    } else if lowered == "ed25519".spec_bytes() {
        Ok(TextSignFormat::Ed25519)
    } else if lowered == "chacha_poly".spec_bytes() {
        Ok(TextSignFormat::ChaChaPoly)
    } else {
        Err(ProcessError::UnsupportedFormat)
    }
}

} // verus!
