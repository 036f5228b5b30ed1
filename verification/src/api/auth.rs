use vstd::prelude::*;
use crate::clock::{now_millis, timestamp_in_range};
use crate::text::string_of;

verus! {

/// How long a session token stays valid.
pub const TOKEN_VALID_DAYS: i64 = 30;

/// Seconds per day.
pub const SECONDS_PER_DAY: i64 = 86_400;

/// The claims a session token carries.
pub struct Claims {
    /// Subject: user id
    pub sub: String,
    /// Email
    pub email: String,
    /// Is admin
    pub is_admin: bool,
    /// Issued at (unix timestamp, seconds)
    pub iat: i64,
    /// Expiry (unix timestamp, seconds)
    pub exp: i64,
}

/// Whole seconds of a millisecond timestamp, rounded down (what chrono's
/// `timestamp()` gives for the instant).
pub open spec fn seconds_of(ms: i64) -> int {
    ms as int / 1000
}

/// Whole seconds of a millisecond timestamp, rounded toward negative infinity.
pub fn floor_seconds(ms: i64) -> (s: i64)
    ensures
        s == seconds_of(ms),
{
    if ms >= 0 {
        ms / 1000
    } else {
        let q = ms / 1000;
        if q * 1000 == ms {
            q
        } else {
            q - 1
        }
    }
}

/// The claims of a token issued at `now_ms` for the given user: valid for
/// thirty days.
pub fn claims_at(user_id: &str, email: &str, is_admin: bool, now_ms: i64) -> (c: Claims)
    requires
        timestamp_in_range(now_ms),
    ensures
        c.sub@ == user_id@,
        c.email@ == email@,
        c.is_admin == is_admin,
        c.iat == seconds_of(now_ms),
        c.exp == seconds_of(now_ms) + TOKEN_VALID_DAYS * SECONDS_PER_DAY,
{
    let now = floor_seconds(now_ms);
    Claims {
        sub: string_of(user_id),
        email: string_of(email),
        is_admin,
        iat: now,
        exp: now + TOKEN_VALID_DAYS * SECONDS_PER_DAY,
    }
}

/// The claims of a token issued now for the given user.
pub fn claims_now(user_id: &str, email: &str, is_admin: bool) -> (c: Claims)
    ensures
        c.sub@ == user_id@,
        c.email@ == email@,
        c.is_admin == is_admin,
        c.exp == c.iat + TOKEN_VALID_DAYS * SECONDS_PER_DAY,
{
    claims_at(user_id, email, is_admin, now_millis())
}

} // verus!
