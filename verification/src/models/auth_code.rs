use vstd::prelude::*;
use crate::clock::{new_uuid, now_millis, timestamp_in_range};

verus! {

/// Milliseconds per minute.
pub const MILLIS_PER_MINUTE: i64 = 60_000;

/// A short-lived verification code for passwordless auth. One active code per
/// (email, purpose); requesting a new code replaces any prior one.
pub struct AuthCode {
    pub id: String,
    /// Normalised (trimmed, lower-cased) email the code was issued to.
    pub email: String,
    /// 6-digit numeric code.
    pub code: String,
    /// What the code authorises: "register", "login", or "delete".
    pub purpose: String,
    pub expires_at: i64,
    pub created_at: i64,
}

impl AuthCode {
    /// A fresh code record issued now, valid for `ttl_minutes`.
    pub fn new(email: &str, code: &str, purpose: &str, ttl_minutes: i64) -> (r: Self)
        requires
            -140_000_000_000 <= ttl_minutes <= 140_000_000_000,
        ensures
            r.email@ == email@,
            r.code@ == code@,
            r.purpose@ == purpose@,
            r.id@.len() == 36,
            timestamp_in_range(r.created_at),
            r.expires_at == r.created_at + ttl_minutes * MILLIS_PER_MINUTE,
    {
        let now = now_millis();
        AuthCode::issued_at(email, code, purpose, ttl_minutes, now)
    }

    /// A fresh code record issued at `now`, valid for `ttl_minutes`.
    pub fn issued_at(email: &str, code: &str, purpose: &str, ttl_minutes: i64, now: i64) -> (r: Self)
        requires
            -140_000_000_000 <= ttl_minutes <= 140_000_000_000,
            timestamp_in_range(now),
        ensures
            r.email@ == email@,
            r.code@ == code@,
            r.purpose@ == purpose@,
            r.id@.len() == 36,
            r.created_at == now,
            r.expires_at == now + ttl_minutes * MILLIS_PER_MINUTE,
    {
        AuthCode {
            id: new_uuid(),
            email: email.to_string(),
            code: code.to_string(),
            purpose: purpose.to_string(),
            expires_at: now + ttl_minutes * MILLIS_PER_MINUTE,
            created_at: now,
        }
    }

    /// Whether the code has expired at instant `now`.
    pub fn is_expired_at(&self, now: i64) -> (r: bool)
        ensures
            r == (self.expires_at <= now),
    {
        self.expires_at <= now
    }

    /// Whether the code has expired at the current time.
    pub fn is_expired(&self) -> (r: bool)
        ensures
            exists|now: i64| timestamp_in_range(now) && r == (self.expires_at <= now),
    {
        let now = now_millis();
        self.is_expired_at(now)
    }
}

/// A code issued with a positive lifetime is live when it is issued, and
/// expires exactly when its lifetime has passed.
pub proof fn law_fresh_code_is_live(code: AuthCode, ttl_minutes: i64, now: i64)
    requires
        ttl_minutes > 0,
        code.expires_at == code.created_at + ttl_minutes * MILLIS_PER_MINUTE,
    ensures
        !(code.expires_at <= code.created_at),
        (code.expires_at <= now) <==> now - code.created_at >= ttl_minutes * MILLIS_PER_MINUTE,
{
}

} // verus!
