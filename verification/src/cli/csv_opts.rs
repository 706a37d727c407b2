use vstd::prelude::*;
use vstd::string::StringSliceAdditionalSpecFns;

use crate::errors::ProcessError;
use crate::utils::{eq_ignore_ascii_case, spec_lower_bytes};

verus! {

/// Options for the CSV conversion: input path, optional output path,
/// delimiter, output format, pretty-printing and header handling.
#[derive(Debug)]
pub struct CsvOpts {
    pub input: String,
    pub output: Option<String>,
    pub delimiter: char,
    pub format: OutputFormat,
    pub pretty: bool,
    pub header: bool,
}

/// The output formats the CSV conversion can produce.
#[derive(Debug, Clone, Copy, PartialEq, Eq, Structural)]
pub enum OutputFormat {
    Json,
    Yaml,
}

impl OutputFormat {
    /// The textual name of the format, as the command line spells it.
    pub fn as_str(&self) -> (r: &'static str)
        ensures
            r@ == self.spec_name(),
    {
        match self {
            OutputFormat::Json => "json",
            OutputFormat::Yaml => "yaml",
        }
    }

    /// What `as_str` returns, as a sequence of characters.
    pub open spec fn spec_name(&self) -> Seq<char> {
        match self {
            OutputFormat::Json => "json"@,
            OutputFormat::Yaml => "yaml"@,
        }
    }
}

/// Parses an output format name, ignoring ASCII case. Exactly the
/// spellings `json` and `yaml` are accepted.
pub fn parse_format(format: &str) -> (r: Result<OutputFormat, ProcessError>)
    ensures
        r == spec_parse_output_format(spec_lower_bytes(format.spec_bytes())),
{
    if eq_ignore_ascii_case(format, "json") {
        Ok(OutputFormat::Json)
    } else if eq_ignore_ascii_case(format, "yaml") {
        Ok(OutputFormat::Yaml)
    } else {
        Err(ProcessError::UnsupportedFormat)
    }
}

/// The format each (already lower-cased) spelling denotes.
pub open spec fn spec_parse_output_format(lowered: Seq<u8>) -> Result<OutputFormat, ProcessError> {
    if lowered == "json".spec_bytes() {
        Ok(OutputFormat::Json)
    } else if lowered == "yaml".spec_bytes() {
        Ok(OutputFormat::Yaml)
    } else {
        Err(ProcessError::UnsupportedFormat)
    }
}

} // verus!
