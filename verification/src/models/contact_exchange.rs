use vstd::prelude::*;
use crate::clock::{new_uuid, now_millis, timestamp_in_range, MILLIS_PER_DAY};

verus! {

/// Lifecycle of a contact-information exchange.
#[derive(Clone, Copy, Debug, PartialEq, Eq, Structural)]
pub enum ContactExchangeStatus {
    Pending,
    Accepted,
    Declined,
    Revoked,
}

/// How long an accepted exchange lasts.
pub const ACCEPT_VALID_DAYS: i64 = 7;

/// A request by one user to share contact details with another.
pub struct ContactExchange {
    pub id: String,
    pub from_user_id: String,
    pub to_user_id: String,
    pub status: ContactExchangeStatus,
    pub expires_at: Option<i64>,
    pub created_at: i64,
}

impl ContactExchange {
    /// A new pending exchange from `from` to `to`, created now.
    pub fn new(from: &str, to: &str) -> (r: Self)
        ensures
            r.from_user_id@ == from@,
            r.to_user_id@ == to@,
            r.status == ContactExchangeStatus::Pending,
            r.expires_at is None,
            r.id@.len() == 36,
            timestamp_in_range(r.created_at),
    {
        ContactExchange {
            id: new_uuid(),
            from_user_id: from.to_string(),
            to_user_id: to.to_string(),
            status: ContactExchangeStatus::Pending,
            expires_at: None,
            created_at: now_millis(),
        }
    }

    /// When an exchange accepted at `now` expires: seven days later.
    pub fn accept_expiry_at(now: i64) -> (r: i64)
        requires
            timestamp_in_range(now),
        ensures
            r == now + ACCEPT_VALID_DAYS * MILLIS_PER_DAY,
    {
        now + ACCEPT_VALID_DAYS * MILLIS_PER_DAY
    }

    /// When an exchange accepted now expires.
    pub fn accept_expiry() -> (r: i64)
        ensures
            exists|now: i64| timestamp_in_range(now) && r == now + ACCEPT_VALID_DAYS * MILLIS_PER_DAY,
    {
        let now = now_millis();
        Self::accept_expiry_at(now)
    }

    /// Whether the exchange has expired at instant `now` (never, when it has
    /// no expiry).
    pub fn is_expired_at(&self, now: i64) -> (r: bool)
        ensures
            r == match self.expires_at {
                Some(e) => e < now,
                None => false,
            },
    {
        match self.expires_at {
            Some(e) => e < now,
            None => false,
        }
    }

    /// Whether the exchange has expired at the current time.
    pub fn is_expired(&self) -> (r: bool)
        ensures
            exists|now: i64| timestamp_in_range(now) && r == match self.expires_at {
                Some(e) => e < now,
                None => false,
            },
    {
        let now = now_millis();
        self.is_expired_at(now)
    }
}

/// An exchange with the names of both parties.
pub struct ContactExchangeResponse {
    pub id: String,
    pub from_user_id: String,
    pub from_user_name: String,
    pub to_user_id: String,
    pub to_user_name: String,
    pub status: ContactExchangeStatus,
    pub expires_at: Option<i64>,
    pub created_at: i64,
}

/// Body of an exchange request.
pub struct CreateContactExchangeBody {
    pub to_user_id: String,
}

/// Body of an answer to an exchange request.
pub struct RespondContactExchangeBody {
    pub accept: bool,
}

} // verus!
