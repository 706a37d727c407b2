use vstd::prelude::*;
use vstd::string::StringSliceAdditionalSpecFns;

use crate::errors::ProcessError;
use crate::utils::{eq_ignore_ascii_case, spec_lower_bytes};

verus! {

/// The base64 subcommands, with their parsed options.
#[derive(Debug)]
pub enum Base64SubCommand {
    Encode(Base64EncodeOpts),
    Decode(Base64DecodeOpts),
}

/// Options for encoding: an input source (a path, or `-` for standard
/// input) and the alphabet to use.
#[derive(Debug)]
pub struct Base64EncodeOpts {
    pub input: String,
    pub format: Base64Format,
}

/// Options for decoding: an input source and the alphabet to expect.
#[derive(Debug)]
pub struct Base64DecodeOpts {
    pub input: String,
    pub format: Base64Format,
}

/// The two supported base64 alphabets: the standard one with padding, and
/// the URL-safe one without padding.
#[derive(Debug, Clone, Copy, PartialEq, Eq, Structural)]
pub enum Base64Format {
    Standard,
    UrlSafe,
}

impl Base64Format {
    /// The textual name of the alphabet, as the command line spells it.
    pub fn as_str(&self) -> (r: &'static str)
        ensures
            r@ == self.spec_name(),
    {
        match self {
            Base64Format::Standard => "standard",
            Base64Format::UrlSafe => "urlsafe",
        }
    }

    /// What `as_str` returns, as a sequence of characters.
    pub open spec fn spec_name(&self) -> Seq<char> {
        match self {
            Base64Format::Standard => "standard"@,
            Base64Format::UrlSafe => "urlsafe"@,
        }
    }
}

/// Parses an alphabet name, ignoring ASCII case. Exactly the spellings
/// `standard` and `urlsafe` are accepted.
pub fn parse_base64_format(format: &str) -> (r: Result<Base64Format, ProcessError>)
    ensures
        r == spec_parse_base64_format(spec_lower_bytes(format.spec_bytes())),
{
    if eq_ignore_ascii_case(format, "standard") {
        Ok(Base64Format::Standard)
    } else if eq_ignore_ascii_case(format, "urlsafe") {
        Ok(Base64Format::UrlSafe)
    } else {
        Err(ProcessError::UnsupportedFormat)
    }
}

/// The alphabet each (already lower-cased) spelling denotes.
pub open spec fn spec_parse_base64_format(lowered: Seq<u8>) -> Result<Base64Format, ProcessError> {
    if lowered == "standard".spec_bytes() {
        Ok(Base64Format::Standard)
    } else if lowered == "urlsafe".spec_bytes() {
        Ok(Base64Format::UrlSafe)
    } else {
        Err(ProcessError::UnsupportedFormat)
    }
}

} // verus!
