use vstd::prelude::*;
use crate::clock::{timestamp_in_range, MILLIS_PER_DAY};
use crate::error::{TeamderError, fails_with};
use crate::models::contact_exchange::{
    ACCEPT_VALID_DAYS, ContactExchange, ContactExchangeResponse, ContactExchangeStatus,
};
use crate::text::str_eq;

verus! {

/// An exchange together with the names of both parties.
pub fn enrich(ex: ContactExchange, from_name: String, to_name: String) -> (r: ContactExchangeResponse)
    ensures
        r.id == ex.id,
        r.from_user_id == ex.from_user_id,
        r.from_user_name == from_name,
        r.to_user_id == ex.to_user_id,
        r.to_user_name == to_name,
        r.status == ex.status,
        r.expires_at == ex.expires_at,
        r.created_at == ex.created_at,
{
    ContactExchangeResponse {
        id: ex.id,
        from_user_id: ex.from_user_id,
        from_user_name: from_name,
        to_user_id: ex.to_user_id,
        to_user_name: to_name,
        status: ex.status,
        expires_at: ex.expires_at,
        created_at: ex.created_at,
    }
}

/// An exchange is expired at `now` when it has an expiry before `now`.
pub open spec fn expired_at(expires_at: Option<i64>, now: i64) -> bool {
    match expires_at {
        Some(e) => e < now,
        None => false,
    }
}

/// The existing exchange between two users (if any) blocks a new request
/// while it is pending, or accepted and not yet expired.
pub open spec fn blocks_new_request(existing: Option<(ContactExchangeStatus, Option<i64>)>, now: i64) -> bool {
    match existing {
        Some((s, e)) => s == ContactExchangeStatus::Pending || (s == ContactExchangeStatus::Accepted
            && !expired_at(e, now)),
        None => false,
    }
}

/// Decides a new exchange request from `from` to `to`, given the latest
/// exchange between them.
pub fn create_exchange_check(from: &str, to: &str, existing: Option<&ContactExchange>, now: i64) -> (r: Result<(), TeamderError>)
    ensures
        from@ == to@ ==> fails_with(r, 409, "Cannot exchange with yourself"@),
        from@ != to@ && existing is Some && existing->0.status == ContactExchangeStatus::Pending
            ==> fails_with(r, 409, "Request already pending"@),
        from@ != to@ && existing is Some && existing->0.status == ContactExchangeStatus::Accepted
            && !expired_at(existing->0.expires_at, now) ==> fails_with(
            r,
            409,
            "Already sharing contact info"@,
        ),
        from@ != to@ && !blocks_new_request(
            match existing {
                Some(ex) => Some((ex.status, ex.expires_at)),
                None => None,
            },
            now,
        ) ==> r is Ok,
{
    if str_eq(from, to) {
        return Err(TeamderError::Conflict("Cannot exchange with yourself".to_string()));
    }
    match existing {
        Some(ex) => {
            match ex.status {
                ContactExchangeStatus::Pending => Err(
                    TeamderError::Conflict("Request already pending".to_string()),
                ),
                ContactExchangeStatus::Accepted => {
                    if !ex.is_expired_at(now) {
                        Err(TeamderError::Conflict("Already sharing contact info".to_string()))
                    } else {
                        Ok(())
                    }
                },
                _ => Ok(()),
            }
        },
        None => Ok(()),
    }
}

/// The state an answer moves an exchange to: accepted for seven days, or
/// declined without expiry. `None` when the answer is refused: the caller
/// is not the recipient, or the exchange is no longer pending.
pub open spec fn answer_outcome(
    status: ContactExchangeStatus,
    to: Seq<char>,
    caller: Seq<char>,
    accept: bool,
    now: i64,
) -> Option<(ContactExchangeStatus, Option<int>)> {
    if caller != to || status != ContactExchangeStatus::Pending {
        None
    } else if accept {
        Some((ContactExchangeStatus::Accepted, Some(now + ACCEPT_VALID_DAYS * MILLIS_PER_DAY)))
    } else {
        Some((ContactExchangeStatus::Declined, None))
    }
}

/// Decides an answer by `caller` to the exchange at `now`: the new status and
/// expiry.
pub fn respond_exchange_decision(ex: &ContactExchange, caller: &str, accept: bool, now: i64) -> (r: Result<(ContactExchangeStatus, Option<i64>), TeamderError>)
    requires
        timestamp_in_range(now),
    ensures
        caller@ != ex.to_user_id@ ==> fails_with(r, 403, "Only the recipient can respond"@),
        caller@ == ex.to_user_id@ && ex.status != ContactExchangeStatus::Pending ==> fails_with(
            r,
            409,
            "Already responded"@,
        ),
        match answer_outcome(ex.status, ex.to_user_id@, caller@, accept, now) {
            Some((s, e)) => r matches Ok((s2, e2)) && s2 == s && (match e2 {
                Some(x) => e == Some(x as int),
                None => e is None,
            }),
            None => r is Err,
        },
{
    if !str_eq(ex.to_user_id.as_str(), caller) {
        return Err(TeamderError::Forbidden("Only the recipient can respond".to_string()));
    }
    if ex.status != ContactExchangeStatus::Pending {
        return Err(TeamderError::Conflict("Already responded".to_string()));
    }
    if accept {
        Ok((ContactExchangeStatus::Accepted, Some(ContactExchange::accept_expiry_at(now))))
    } else {
        Ok((ContactExchangeStatus::Declined, None))
    }
}

/// Kind of the chat message recording an answer.
pub fn answer_message_kind(accept: bool) -> (k: &'static str)
    ensures
        k@ == (if accept {
            "contact_accepted"@
        } else {
            "contact_declined"@
        }),
{
    if accept {
        "contact_accepted"
    } else {
        "contact_declined"
    }
}

/// A revocation by `caller` is allowed when they are a party to an accepted
/// exchange.
pub open spec fn may_revoke(status: ContactExchangeStatus, from: Seq<char>, to: Seq<char>, caller: Seq<char>) -> bool {
    (caller == from || caller == to) && status == ContactExchangeStatus::Accepted
}

/// Decides a revocation: either party may revoke an accepted exchange.
pub fn revoke_exchange_check(ex: &ContactExchange, caller: &str) -> (r: Result<(), TeamderError>)
    ensures
        !(caller@ == ex.from_user_id@ || caller@ == ex.to_user_id@) ==> fails_with(
            r,
            403,
            "Only a party to the exchange can revoke it"@,
        ),
        (caller@ == ex.from_user_id@ || caller@ == ex.to_user_id@) && ex.status
            != ContactExchangeStatus::Accepted ==> fails_with(
            r,
            409,
            "Can only revoke accepted exchanges"@,
        ),
        may_revoke(ex.status, ex.from_user_id@, ex.to_user_id@, caller@) ==> r is Ok,
{
    if !str_eq(ex.from_user_id.as_str(), caller) && !str_eq(ex.to_user_id.as_str(), caller) {
        return Err(TeamderError::Forbidden("Only a party to the exchange can revoke it".to_string()));
    }
    if ex.status != ContactExchangeStatus::Accepted {
        return Err(TeamderError::Conflict("Can only revoke accepted exchanges".to_string()));
    }
    Ok(())
}

/// The other party of an exchange, seen from `caller`.
pub fn partner_of<'a>(ex: &'a ContactExchange, caller: &str) -> (p: &'a String)
    ensures
        p@ == (if ex.from_user_id@ == caller@ {
            ex.to_user_id@
        } else {
            ex.from_user_id@
        }),
{
    if str_eq(ex.from_user_id.as_str(), caller) {
        &ex.to_user_id
    } else {
        &ex.from_user_id
    }
}

/// An accepted exchange whose expiry passed is revoked when it is next read;
/// returns the exchange as it stands and whether it changed.
pub fn expire_if_due(ex: ContactExchange, now: i64) -> (r: (ContactExchange, bool))
    ensures
        r.1 == (ex.status == ContactExchangeStatus::Accepted && expired_at(ex.expires_at, now)),
        r.0.status == (if r.1 {
            ContactExchangeStatus::Revoked
        } else {
            ex.status
        }),
        r.0.id == ex.id,
        r.0.from_user_id == ex.from_user_id,
        r.0.to_user_id == ex.to_user_id,
        r.0.expires_at == ex.expires_at,
        r.0.created_at == ex.created_at,
{
    let due = ex.status == ContactExchangeStatus::Accepted && ex.is_expired_at(now);
    let mut ex = ex;
    if due {
        ex.status = ContactExchangeStatus::Revoked;
    }
    (ex, due)
}

/// An exchange is answered at most once: after an allowed answer, any further
/// answer is refused.
pub proof fn law_exchange_answered_once(
    to: Seq<char>,
    caller: Seq<char>,
    accept: bool,
    now: i64,
    answered: ContactExchangeStatus,
    expiry: Option<int>,
    caller2: Seq<char>,
    accept2: bool,
    now2: i64,
)
    requires
        answer_outcome(ContactExchangeStatus::Pending, to, caller, accept, now) == Some(
            (answered, expiry),
        ),
    ensures
        answer_outcome(answered, to, caller2, accept2, now2) is None,
{
}

/// A revoked exchange can be neither answered nor revoked again, and only an
/// accepted exchange can be revoked.
pub proof fn law_revocation_is_final(from: Seq<char>, to: Seq<char>, caller: Seq<char>, accept: bool, now: i64)
    ensures
        answer_outcome(ContactExchangeStatus::Revoked, to, caller, accept, now) is None,
        !may_revoke(ContactExchangeStatus::Revoked, from, to, caller),
        !may_revoke(ContactExchangeStatus::Pending, from, to, caller),
        !may_revoke(ContactExchangeStatus::Declined, from, to, caller),
{
}

/// After a refusal or a revocation a new request can be made; while a request
/// is pending it cannot.
pub proof fn law_new_request_after_close(e: Option<i64>, now: i64)
    ensures
        !blocks_new_request(Some((ContactExchangeStatus::Declined, e)), now),
        !blocks_new_request(Some((ContactExchangeStatus::Revoked, e)), now),
        blocks_new_request(Some((ContactExchangeStatus::Pending, e)), now),
{
}

} // verus!
