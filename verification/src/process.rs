use vstd::prelude::*;

pub mod b64;
pub mod csv_convert;
pub mod gen_pass;
pub mod http_serve;
pub mod jwt;
pub mod text;

pub use b64::{process_decode, process_encode};
pub use gen_pass::process_gen_pass;
pub use text::{
    process_text_decrypt, process_text_encrypt, process_text_generate, process_text_sign,
    process_text_verify,
};

verus! {

/// One row of the players table an early shape of the CSV conversion
/// read: plain fields only, so the row can be built and inspected here;
/// reading and serialising rows happens outside the verified core.
#[derive(Debug)]
pub struct Player {
    pub name: String,
    pub position: String,
    pub dob: String,
    pub nationality: String,
    pub kit: u8,
}

} // verus!
