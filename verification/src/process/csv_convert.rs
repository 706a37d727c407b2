use vstd::prelude::*;

verus! {

/// One row of the players table the CSV conversion reads. The conversion
/// itself parses CSV files and serialises rows through outside crates, so
/// it runs in the surrounding binary; this is the plain shape of a row.
#[derive(Debug)]
pub struct Player {
    pub name: String,
    pub position: String,
    pub dob: String,
    pub nationality: String,
    pub kit: u8,
}

} // verus!
