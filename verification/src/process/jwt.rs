use vstd::prelude::*;

verus! {

/// The claims a token carries: subject, audience and expiry timestamp.
/// Encoding and decoding the token itself goes through an outside
/// serialiser, so it happens in the surrounding binary; the claims and
/// the expiry arithmetic live here.
#[derive(Debug)]
pub struct Claims {
    pub sub: String,
    pub aud: String,
    pub exp: u32,
}

/// The default expiry offset a token gets when none is requested.
pub const DEFAULT_JWT_EXPIRY: u32 = 3600;

impl Claims {
    /// Builds the claims exactly from the given parts.
    pub fn new(sub: String, aud: String, exp: u32) -> (r: Self)
        ensures
            r.sub == sub,
            r.aud == aud,
            r.exp == exp,
    {
        Self { sub, aud, exp }
    }
}

/// Relies on std::time::SystemTime::now: the seconds since the Unix
/// epoch, truncated to 32 bits; a clock before the epoch reads as zero.
/// The value depends on the clock, so nothing is promised of it.
#[verifier::external_body]
pub fn get_current_timestamp() -> u32 {
    std::time::SystemTime::now()
        .duration_since(std::time::UNIX_EPOCH)
        .unwrap_or(std::time::Duration::from_secs(0))
        .as_secs() as u32
}

/// The expiry timestamp a token signed at this moment gets, read from the
/// clock; nothing when the sum would not fit. Whatever the clock read,
/// the expiry lies at least the effective offset in the future.
pub fn expiry_from_now(exp: u32) -> (r: Option<u32>)
    ensures
        r matches Some(v) ==> v >= (if exp > 0 {
            exp
        } else {
            DEFAULT_JWT_EXPIRY
        }),
{
    let now = get_current_timestamp();
    let offset = if exp > 0 {
        exp
    } else {
        DEFAULT_JWT_EXPIRY
    };
    if now <= u32::MAX - offset {
        Some(jwt_expiry(exp, now))
    } else {
        None
    }
}

/// The expiry timestamp a token signed now gets: the clock reading plus
/// the requested offset, or plus the default hour when the requested
/// offset is zero.
pub fn jwt_expiry(exp: u32, now: u32) -> (r: u32)
    requires
        now + (if exp > 0 {
            exp as int
        } else {
            DEFAULT_JWT_EXPIRY as int
        }) <= u32::MAX,
    ensures
        r == now + (if exp > 0 {
            exp as int
        } else {
            DEFAULT_JWT_EXPIRY as int
        }),
{
    if exp > 0 {
        now + exp
    } else {
        now + DEFAULT_JWT_EXPIRY
    }
}

} // verus!
