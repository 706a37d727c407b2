use vstd::prelude::*;

pub mod cli;
pub mod errors;
pub mod opts;
pub mod process;
pub mod utils;

pub use cli::{
    Base64Format, Base64SubCommand, HTTPSubCommand, Opts, OutputFormat, SubCommand, TextSignFormat,
    TextSubCommand,
};
pub use errors::ProcessError;
pub use process::{
    process_decode, process_encode, process_gen_pass, process_text_decrypt, process_text_encrypt,
    process_text_generate, process_text_sign, process_text_verify,
};

verus! {

} // verus!
