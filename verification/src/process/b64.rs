use vstd::prelude::*;
use vstd::string::StringSliceAdditionalSpecFns;

use base64::engine::general_purpose::{STANDARD, URL_SAFE_NO_PAD};
use base64::Engine;

use crate::cli::Base64Format;
use crate::errors::ProcessError;

verus! {

/// What base64's standard-alphabet padded encoding returns for a byte
/// sequence.
pub uninterp spec fn spec_b64std_encode(data: Seq<u8>) -> Seq<char>;

/// What base64's standard-alphabet padded decoding returns: the decoded
/// bytes, or nothing when the text is not a valid encoding.
pub uninterp spec fn spec_b64std_decode(text: Seq<char>) -> Option<Seq<u8>>;

/// What base64's URL-safe unpadded encoding returns for a byte sequence.
pub uninterp spec fn spec_b64url_encode(data: Seq<u8>) -> Seq<char>;

/// What base64's URL-safe unpadded decoding returns: the decoded bytes,
/// or nothing when the text is not a valid encoding.
pub uninterp spec fn spec_b64url_decode(text: Seq<char>) -> Option<Seq<u8>>;

/// Relies on base64's STANDARD engine: encoding is a function of the
/// input bytes alone, and decoding the produced text gives them back.
#[verifier::external_body]
pub(crate) fn b64std_encode(data: &[u8]) -> (r: String)
    ensures
        r@ == spec_b64std_encode(data@),
        spec_b64std_decode(r@) == Some(data@),
{
    STANDARD.encode(data)
}

/// Relies on base64's STANDARD engine: whether text decodes, and to what,
/// is a function of the text alone.
#[verifier::external_body]
pub(crate) fn b64std_decode(data: &str) -> (r: Option<Vec<u8>>)
    ensures
        match r {
            Some(v) => spec_b64std_decode(data@) == Some(v@),
            None => spec_b64std_decode(data@) is None,
        },
{
    match STANDARD.decode(data) {
        Ok(v) => Some(v),
        Err(_) => None,
    }
}

/// Relies on base64's URL_SAFE_NO_PAD engine: encoding is a function of
/// the input bytes alone, and decoding the produced text gives them back.
#[verifier::external_body]
pub(crate) fn b64url_encode(data: &[u8]) -> (r: String)
    ensures
        r@ == spec_b64url_encode(data@),
        spec_b64url_decode(r@) == Some(data@),
{
    URL_SAFE_NO_PAD.encode(data)
}

/// Relies on base64's URL_SAFE_NO_PAD engine: whether text decodes, and
/// to what, is a function of the text alone.
#[verifier::external_body]
pub(crate) fn b64url_decode(data: &str) -> (r: Option<Vec<u8>>)
    ensures
        match r {
            Some(v) => spec_b64url_decode(data@) == Some(v@),
            None => spec_b64url_decode(data@) is None,
        },
{
    match URL_SAFE_NO_PAD.decode(data) {
        Ok(v) => Some(v),
        Err(_) => None,
    }
}

/// What encoding a text's bytes under the chosen alphabet yields.
pub open spec fn spec_process_encode(data: Seq<u8>, format: Base64Format) -> Seq<char> {
    match format {
        Base64Format::Standard => spec_b64std_encode(data),
        Base64Format::UrlSafe => spec_b64url_encode(data),
    }
}

/// What decoding a text under the chosen alphabet yields, when it decodes.
pub open spec fn spec_process_decode(data: Seq<char>, format: Base64Format) -> Option<Seq<u8>> {
    match format {
        Base64Format::Standard => spec_b64std_decode(data),
        Base64Format::UrlSafe => spec_b64url_decode(data),
    }
}

/// Encodes the bytes of an already-read text under the chosen alphabet.
pub fn process_encode(data: &str, format: Base64Format) -> (r: String)
    ensures
        r@ == spec_process_encode(data.spec_bytes(), format),
        spec_process_decode(r@, format) == Some(data.spec_bytes()),
{
    match format {
        Base64Format::Standard => b64std_encode(data.as_bytes()),
        Base64Format::UrlSafe => b64url_encode(data.as_bytes()),
    }
}

/// Decodes an already-read text under the chosen alphabet; text that is
/// no valid encoding is rejected, and nothing else is.
pub fn process_decode(data: &str, format: Base64Format) -> (r: Result<Vec<u8>, ProcessError>)
    ensures
        match r {
            Ok(v) => spec_process_decode(data@, format) == Some(v@),
            Err(e) => spec_process_decode(data@, format) is None && e == ProcessError::DecodeError,
        },
{
    let decoded = match format {
        Base64Format::Standard => b64std_decode(data),
        Base64Format::UrlSafe => b64url_decode(data),
    };
    match decoded {
        Some(v) => Ok(v),
        None => Err(ProcessError::DecodeError),
    }
}

} // verus!
