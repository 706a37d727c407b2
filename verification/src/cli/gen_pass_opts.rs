use vstd::prelude::*;

verus! {

/// Options for password generation: the length and which character
/// classes to leave out.
#[derive(Debug)]
pub struct GenPassOpts {
    pub length: u8,
    pub no_uppercase: bool,
    pub no_lowercase: bool,
    pub no_number: bool,
    pub no_symbol: bool,
}

} // verus!
