use vstd::prelude::*;

verus! {

/// The JWT subcommands, with their parsed options.
#[derive(Debug)]
pub enum JWTSubCommand {
    Sign(JWTSignOpts),
    Verify(JWTVerifyOpts),
}

/// Options for signing a token: subject, audience and expiration offset.
#[derive(Debug)]
pub struct JWTSignOpts {
    pub sub: String,
    pub aud: String,
    pub exp: u32,
}

/// Options for verifying a token: the token text and the audience it must
/// be addressed to.
#[derive(Debug)]
pub struct JWTVerifyOpts {
    pub token: String,
    pub aud: String,
}

} // verus!
