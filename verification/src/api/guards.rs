use vstd::prelude::*;
use crate::text::{chars_of, is_prefix, starts_with_chars, string_from_chars, string_of};

verus! {

/// The authenticated user, from `Authorization: Bearer <token>`.
pub struct AuthUser {
    pub user_id: String,
}

/// The authenticated user if a valid token was sent, else `None`.
pub struct OptionalAuth(pub Option<String>);

/// An authenticated user whose account is an admin.
pub struct AdminUser {
    pub user_id: String,
}

/// An authenticated user whose account is a publisher or an admin.
pub struct PublisherUser {
    pub user_id: String,
}

/// Why a guard refused a request: the HTTP status and a short reason.
pub struct GuardFailure {
    pub status: u16,
    pub reason: &'static str,
}

/// The token of an `Authorization` header: what follows `"Bearer "`, or the
/// whole header when it has no such prefix.
pub open spec fn token_of_header(h: Seq<char>) -> Seq<char> {
    if is_prefix("Bearer "@, h) {
        h.subrange("Bearer "@.len() as int, h.len() as int)
    } else {
        h
    }
}

/// The token carried by an `Authorization` header value.
pub fn bearer_token(header: &str) -> (t: String)
    ensures
        t@ == token_of_header(header@),
{
    let h = chars_of(header);
    let p = chars_of("Bearer ");
    if starts_with_chars(&h, &p) {
        let mut rest: Vec<char> = Vec::new();
        let n = h.len();
        let mut i: usize = p.len();
        while i < n
            invariant
                n == h@.len(),
                p@.len() <= i <= n,
                rest@ == h@.subrange(p@.len() as int, i as int),
            decreases n - i,
        {
            rest.push(h[i]);
            i = i + 1;
            proof {
                assert(rest@ =~= h@.subrange(p@.len() as int, i as int));
            }
        }
        string_from_chars(&rest)
    } else {
        string_of(header)
    }
}

/// Outcome of the bearer-token guard: a missing header or a token that does
/// not verify is refused with 401; otherwise the token's subject is the user.
pub fn auth_user_outcome(header_present: bool, verified_subject: Option<String>) -> (r: Result<AuthUser, GuardFailure>)
    ensures
        !header_present ==> (r matches Err(f) && f.status == 401 && f.reason@ == "Missing Authorization header"@),
        header_present && verified_subject is None ==> (r matches Err(f) && f.status == 401
            && f.reason@ == "Invalid or expired token"@),
        header_present && verified_subject is Some ==> (r matches Ok(u) && u.user_id
            == verified_subject->0),
{
    if !header_present {
        return Err(GuardFailure { status: 401, reason: "Missing Authorization header" });
    }
    match verified_subject {
        Some(sub) => Ok(AuthUser { user_id: sub }),
        None => Err(GuardFailure { status: 401, reason: "Invalid or expired token" }),
    }
}

/// Outcome of the optional guard: the subject of a verified token, else none.
pub fn optional_auth_outcome(header_present: bool, verified_subject: Option<String>) -> (r: OptionalAuth)
    ensures
        r.0 == (if header_present { verified_subject } else { None }),
{
    if header_present {
        OptionalAuth(verified_subject)
    } else {
        OptionalAuth(None)
    }
}

/// Outcome of the admin guard once the token's subject is known: the
/// account (given by its admin flag) must exist and be an admin.
pub fn admin_outcome(subject: String, account_is_admin: Option<bool>) -> (r: Result<AdminUser, GuardFailure>)
    ensures
        account_is_admin is None ==> (r matches Err(f) && f.status == 401 && f.reason@ == "User not found"@),
        account_is_admin == Some(false) ==> (r matches Err(f) && f.status == 403 && f.reason@
            == "Admin access required"@),
        account_is_admin == Some(true) ==> (r matches Ok(u) && u.user_id == subject),
{
    match account_is_admin {
        None => Err(GuardFailure { status: 401, reason: "User not found" }),
        Some(false) => Err(GuardFailure { status: 403, reason: "Admin access required" }),
        Some(true) => Ok(AdminUser { user_id: subject }),
    }
}

/// Outcome of the publisher guard once the token's subject is known: the
/// account (given by its publisher and admin flags) must exist and be a
/// publisher or an admin.
pub fn publisher_outcome(subject: String, account_flags: Option<(bool, bool)>) -> (r: Result<PublisherUser, GuardFailure>)
    ensures
        account_flags is None ==> (r matches Err(f) && f.status == 401 && f.reason@ == "User not found"@),
        account_flags matches Some((p, a)) && !p && !a ==> (r matches Err(f) && f.status == 403
            && f.reason@ == "Publisher access required"@),
        account_flags matches Some((p, a)) && (p || a) ==> (r matches Ok(u) && u.user_id == subject),
{
    match account_flags {
        None => Err(GuardFailure { status: 401, reason: "User not found" }),
        Some((is_publisher, is_admin)) => {
            if !is_publisher && !is_admin {
                Err(GuardFailure { status: 403, reason: "Publisher access required" })
            } else {
                Ok(PublisherUser { user_id: subject })
            }
        },
    }
}

} // verus!
