use vstd::prelude::*;
use vstd::string::StringSliceAdditionalSpecFns;

use crate::errors::ProcessError;
use crate::utils::{eq_ignore_ascii_case, path_exists, spec_lower_bytes};

verus! {

/// A minimal, CSV-only shape of the command line: one subcommand.
#[derive(Debug)]
pub struct Opts {
    pub cmd: SubCommand,
}

/// The single subcommand of the CSV-only command line.
#[derive(Debug)]
pub enum SubCommand {
    Csv(CsvOpts),
}

/// The output formats the CSV conversion can produce.
#[derive(Debug, Clone, Copy, PartialEq, Eq, Structural)]
pub enum OutputFormat {
    Json,
    Yaml,
}

/// Options for the CSV conversion: input path, optional output path,
/// delimiter, output format, pretty-printing and header handling.
#[derive(Debug)]
pub struct CsvOpts {
    pub input: String,
    pub output: Option<String>,
    pub delimiter: char,
    pub format: OutputFormat,
    pub pretty: bool,
    pub header: bool,
}

impl OutputFormat {
    /// The textual name of the format, as the command line spells it.
    pub fn as_str(&self) -> (r: &'static str)
        ensures
            r@ == self.spec_name(),
    {
        match self {
            OutputFormat::Json => "json",
            OutputFormat::Yaml => "yaml",
        }
    }

    /// What `as_str` returns, as a sequence of characters.
    pub open spec fn spec_name(&self) -> Seq<char> {
        match self {
            OutputFormat::Json => "json"@,
            OutputFormat::Yaml => "yaml"@,
        }
    }
}

/// Accepts a name only when the file system has it; the rejected name is
/// reported as not found.
pub fn verify_input_file(filename: &str) -> (r: Result<String, &'static str>)
    ensures
        r matches Ok(s) ==> s@ == filename@,
        r matches Err(e) ==> e@ == "File not found"@,
{
    if path_exists(filename) {
        Ok(filename.to_owned())
    } else {
        Err("File not found")
    }
}

/// Parses an output format name, ignoring ASCII case. Exactly the
/// spellings `json` and `yaml` are accepted.
pub fn parse_format(format: &str) -> (r: Result<OutputFormat, ProcessError>)
    ensures
        r == spec_parse_output_format(spec_lower_bytes(format.spec_bytes())),
{
    if eq_ignore_ascii_case(format, "json") {
        Ok(OutputFormat::Json)
    } else if eq_ignore_ascii_case(format, "yaml") {
        Ok(OutputFormat::Yaml)
    } else {
        Err(ProcessError::UnsupportedFormat)
    }
}

/// The format each (already lower-cased) spelling denotes.
pub open spec fn spec_parse_output_format(lowered: Seq<u8>) -> Result<OutputFormat, ProcessError> {
    if lowered == "json".spec_bytes() {
        Ok(OutputFormat::Json)
    } else if lowered == "yaml".spec_bytes() {
        Ok(OutputFormat::Yaml)
    } else {
        Err(ProcessError::UnsupportedFormat)
    }
}

} // verus!
