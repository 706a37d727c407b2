use vstd::prelude::*;

pub mod base64_opts;
pub mod csv_opts;
pub mod gen_pass_opts;
pub mod http_opts;
pub mod jwt_opts;
pub mod text_opts;

pub use base64_opts::{Base64DecodeOpts, Base64EncodeOpts, Base64Format, Base64SubCommand};
pub use csv_opts::{CsvOpts, OutputFormat};
pub use gen_pass_opts::GenPassOpts;
pub use http_opts::{HTTPServeOpts, HTTPSubCommand};
pub use jwt_opts::{JWTSignOpts, JWTSubCommand, JWTVerifyOpts};
pub use text_opts::{
    TextDecryptOpts, TextEncryptOpts, TextKeyGenerateOpts, TextSignFormat, TextSignOpts,
    TextSubCommand, TextVerifyOpts,
};

use crate::utils::{path_exists, path_is_dir, str_eq};

verus! {

/// The parsed command line: exactly one subcommand.
#[derive(Debug)]
pub struct Opts {
    pub cmd: SubCommand,
}

/// The closed set of subcommands the tool offers.
#[derive(Debug)]
pub enum SubCommand {
    Csv(CsvOpts),
    GenPass(GenPassOpts),
    Base64(Base64SubCommand),
    Text(TextSubCommand),
    Http(HTTPSubCommand),
    JWT(JWTSubCommand),
}

/// Accepts `-` (standard input) unconditionally, and any other name only
/// when the file system has it; the rejected name is reported as not found.
pub fn verify_file(filename: &str) -> (r: Result<String, &'static str>)
    ensures
        filename@ == "-"@ ==> r is Ok,
        r matches Ok(s) ==> s@ == filename@,
        r matches Err(e) ==> e@ == "File not found"@ && filename@ != "-"@,
{
    if str_eq(filename, "-") || path_exists(filename) {
        Ok(filename.to_owned())
    } else {
        Err("File not found")
    }
}

/// Accepts a name only when the file system has it as a directory.
pub fn verify_path(filename: &str) -> (r: Result<String, &'static str>)
    ensures
        r matches Ok(s) ==> s@ == filename@,
        r matches Err(e) ==> e@ == "Path does not exist or is not a directory"@,
{
    if path_exists(filename) && path_is_dir(filename) {
        Ok(filename.to_owned())
    } else {
        Err("Path does not exist or is not a directory")
    }
}

} // verus!
