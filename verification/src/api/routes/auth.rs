use vstd::prelude::*;
use crate::clock::random_u128;
use crate::error::{TeamderError, fails_with};
use crate::models::auth_code::AuthCode;
use crate::text::{
    chars_of, concat, decimal_string, digits, find_first, find_last, first_index_of,
    last_index_of, lemma_first_index_of, lemma_first_index_of_unique, lemma_last_index_of,
    lemma_last_index_of_unique, lowercase, pad_zeros, str_eq,
    string_from_chars, string_of, to_lowercase, trim, trimmed, zero_pad,
};

verus! {

/// How long a verification code stays valid, in minutes.
pub const CODE_TTL_MINUTES: i64 = 10;

/// Default domain allowed to create new accounts (Fu Jen student cloud mail).
pub const ALLOWED_REGISTER_DOMAIN: &'static str = "cloud.fju.edu.tw";

// ── Email checks ────────────────────────────────────────────────────────────

/// Exactly one `'@'`, a non-empty local part, and a domain that contains a
/// dot but neither starts nor ends with one.
pub open spec fn valid_email(s: Seq<char>) -> bool {
    match first_index_of(s, '@') {
        None => false,
        Some(i) => {
            let d = s.subrange(i + 1, s.len() as int);
            &&& last_index_of(s, '@') == Some(i)
            &&& i > 0
            &&& exists|j: int| 0 <= j < d.len() && d[j] == '.'
            &&& d[0] != '.'
            &&& d.last() != '.'
        },
    }
}

/// An address with exactly one `'@'`, split there into a local part and a
/// domain, is valid exactly when the local part is not empty and the domain
/// contains a dot but neither starts nor ends with one; an address with no
/// `'@'`, or with two, is never valid.
pub proof fn law_email_split(local: Seq<char>, domain: Seq<char>, s: Seq<char>)
    requires
        forall|j: int| 0 <= j < local.len() ==> local[j] != '@',
        forall|j: int| 0 <= j < domain.len() ==> domain[j] != '@',
    ensures
        valid_email(local + seq!['@'] + domain) <==> (local.len() > 0 && (exists|j: int|
            0 <= j < domain.len() && domain[j] == '.') && domain[0] != '.' && domain.last() != '.'),
        (forall|j: int| 0 <= j < s.len() ==> s[j] != '@') ==> !valid_email(s),
        (exists|i: int, j: int| 0 <= i < j < s.len() && s[i] == '@' && s[j] == '@') ==> !valid_email(s),
{
    let e = local + seq!['@'] + domain;
    let k = local.len() as int;
    assert(e[k] == '@');
    assert forall|j: int| 0 <= j < k implies e[j] != '@' by {
        assert(e[j] == local[j]);
    }
    assert forall|j: int| k < j < e.len() implies e[j] != '@' by {
        assert(e[j] == domain[j - k - 1]);
    }
    lemma_first_index_of_unique(e, '@', k);
    lemma_last_index_of_unique(e, '@', k);
    assert(e.subrange(k + 1, e.len() as int) =~= domain);
    lemma_first_index_of(s, '@');
    lemma_last_index_of(s, '@');
}

/// Minimal sanity check of an email address.
pub fn is_valid_email(email: &str) -> (r: bool)
    ensures
        r == valid_email(email@),
{
    let v = chars_of(email);
    let first = find_first(&v, '@');
    let last = find_last(&v, '@');
    proof {
        lemma_first_index_of(v@, '@');
        lemma_last_index_of(v@, '@');
    }
    match first {
        None => false,
        Some(i) => {
            match last {
                None => false,
                Some(k) => {
                    if k != i || i == 0 {
                        return false;
                    }
                    let n = v.len();
                    let mut has_dot = false;
                    let mut j: usize = i + 1;
                    let ghost d = v@.subrange(i + 1, n as int);
                    while j < n
                        invariant
                            n == v@.len(),
                            i < n,
                            i + 1 <= j <= n,
                            d == v@.subrange(i + 1, n as int),
                            has_dot == exists|t: int| 0 <= t < j - i - 1 && d[t] == '.',
                        decreases n - j,
                    {
                        if v[j] == '.' {
                            has_dot = true;
                        }
                        proof {
                            assert(d[j - i - 1] == v@[j as int]);
                            if has_dot && v[j as int] != '.' {
                                let t = choose|t: int| 0 <= t < j - i - 1 && d[t] == '.';
                                assert(0 <= t < j + 1 - i - 1 && d[t] == '.');
                            }
                        }
                        j = j + 1;
                    }
                    if !has_dot {
                        return false;
                    }
                    v[i + 1] != '.' && v[n - 1] != '.'
                },
            }
        },
    }
}

/// The domain after the last `'@'` of `email` equals `allowed`; any domain
/// passes when no restriction is configured.
pub open spec fn domain_allowed(email: Seq<char>, allowed: Option<Seq<char>>) -> bool {
    match allowed {
        None => true,
        Some(a) => match last_index_of(email, '@') {
            Some(i) => email.subrange(i + 1, email.len() as int) == a,
            None => false,
        },
    }
}

/// Whether `email` may create an account under the configured restriction.
pub fn register_domain_allowed(email: &str, allowed: &Option<String>) -> (r: bool)
    ensures
        r == domain_allowed(email@, match allowed {
            Some(a) => Some(a@),
            None => None,
        }),
{
    match allowed {
        None => true,
        Some(a) => {
            let v = chars_of(email);
            match find_last(&v, '@') {
                None => false,
                Some(i) => {
                    let n = v.len();
                    proof {
                        lemma_last_index_of(v@, '@');
                    }
                    let mut d: Vec<char> = Vec::new();
                    let mut j: usize = i + 1;
                    while j < n
                        invariant
                            n == v@.len(),
                            i < n,
                            i + 1 <= j <= n,
                            d@ == v@.subrange(i + 1, j as int),
                        decreases n - j,
                    {
                        d.push(v[j]);
                        j = j + 1;
                        proof {
                            assert(d@ =~= v@.subrange(i + 1, j as int));
                        }
                    }
                    let domain = string_from_chars(&d);
                    domain == *a
                },
            }
        },
    }
}

/// The registration restriction from its configured value: the default
/// domain when none is configured; no restriction when the value trims to
/// nothing or to `*`; otherwise the value trimmed and lower-cased.
pub open spec fn configured_domain(configured: Option<Seq<char>>) -> Option<Seq<char>> {
    let raw = match configured {
        Some(c) => c,
        None => ALLOWED_REGISTER_DOMAIN@,
    };
    let c = lowercase(trimmed(raw));
    if c.len() == 0 || c == "*"@ {
        None
    } else {
        Some(c)
    }
}

/// Reads the registration restriction from the value of the
/// `REGISTER_EMAIL_DOMAIN` setting, if set.
pub fn register_domain_from(configured: Option<&str>) -> (r: Option<String>)
    ensures
        match r {
            Some(d) => configured_domain(match configured {
                Some(c) => Some(c@),
                None => None,
            }) == Some(d@),
            None => configured_domain(match configured {
                Some(c) => Some(c@),
                None => None,
            }) is None,
        },
{
    let raw = match configured {
        Some(c) => c,
        None => ALLOWED_REGISTER_DOMAIN,
    };
    let c = to_lowercase(trim(raw));
    if c.unicode_len() == 0 || str_eq(c.as_str(), "*") {
        None
    } else {
        Some(c)
    }
}

/// An email as stored: trimmed and lower-cased.
pub fn normalize_email(raw: &str) -> (r: String)
    ensures
        r@ == lowercase(trimmed(raw@)),
{
    to_lowercase(trim(raw))
}

// ── Codes ───────────────────────────────────────────────────────────────────

/// The six-digit code for a random number: its last six decimal digits,
/// zero-padded.
pub open spec fn code_text(n: nat) -> Seq<char> {
    zero_pad(digits(n % 1_000_000, 10), 6)
}

/// Renders the code for the random number `n`.
pub fn code_for(n: u128) -> (r: String)
    ensures
        r@ == code_text(n as nat),
{
    let m = (n % 1_000_000) as u64;
    let d = decimal_string(m);
    pad_zeros(d.as_str(), 6)
}

/// A fresh six-digit numeric code.
pub fn generate_code() -> (r: String)
    ensures
        exists|n: nat| r@ == code_text(n),
{
    let n = random_u128();
    code_for(n)
}

/// `purpose` is one a code can be requested for.
pub open spec fn requestable_purpose(purpose: Seq<char>) -> bool {
    purpose == "register"@ || purpose == "login"@ || purpose == "delete"@
}

/// The message refusing a registration outside the allowed domain.
pub open spec fn restricted_message() -> Seq<char> {
    "Registration is restricted to @cloud.fju.edu.tw email addresses"@
}

/// Decides a code request, given the normalised email, the trimmed purpose,
/// whether the email's domain may register, and whether an account exists
/// for the email.
pub fn request_code_check(email: &str, purpose: &str, domain_ok: bool, account_exists: bool) -> (r: Result<(), TeamderError>)
    ensures
        !valid_email(email@) ==> fails_with(r, 422, "Please enter a valid email address"@),
        valid_email(email@) && !requestable_purpose(purpose@) ==> fails_with(
            r,
            422,
            "Unknown verification purpose"@,
        ),
        valid_email(email@) && purpose@ == "register"@ && !domain_ok ==> fails_with(
            r,
            422,
            restricted_message(),
        ),
        valid_email(email@) && purpose@ == "register"@ && domain_ok && account_exists
            ==> fails_with(r, 409, email@ + " is already registered \u{2014} sign in instead"@),
        valid_email(email@) && purpose@ == "register"@ && domain_ok && !account_exists ==> r
            is Ok,
        valid_email(email@) && (purpose@ == "login"@ || purpose@ == "delete"@) && !account_exists
            ==> fails_with(r, 404, "No account is registered with that email"@),
        valid_email(email@) && (purpose@ == "login"@ || purpose@ == "delete"@) && account_exists
            ==> r is Ok,
{
    proof {
        reveal_strlit("register");
        reveal_strlit("login");
        reveal_strlit("delete");
        assert("register"@.len() == 8);
        assert("login"@.len() == 5);
        assert("delete"@.len() == 6);
    }
    if !is_valid_email(email) {
        return Err(TeamderError::Validation("Please enter a valid email address".to_string()));
    }
    if str_eq(purpose, "register") {
        if !domain_ok {
            return Err(
                TeamderError::Validation(
                    "Registration is restricted to @cloud.fju.edu.tw email addresses".to_string(),
                ),
            );
        }
        if account_exists {
            return Err(
                TeamderError::Conflict(
                    concat(email, " is already registered \u{2014} sign in instead"),
                ),
            );
        }
        Ok(())
    } else if str_eq(purpose, "login") || str_eq(purpose, "delete") {
        if !account_exists {
            return Err(
                TeamderError::NotFound("No account is registered with that email".to_string()),
            );
        }
        Ok(())
    } else {
        Err(TeamderError::Validation("Unknown verification purpose".to_string()))
    }
}

/// `purpose` is one a code can be redeemed for.
pub open spec fn redeemable_purpose(purpose: Seq<char>) -> bool {
    purpose == "register"@ || purpose == "login"@
}

/// The message refusing a code that does not verify.
pub open spec fn bad_code_message() -> Seq<char> {
    "Invalid or expired verification code"@
}

/// Decides whether a submitted code may be redeemed at `now`: the purpose
/// must be redeemable, a code must have been issued for the email and
/// purpose, it must not have expired, and it must match.
pub fn verify_code_check(purpose: &str, record: Option<&AuthCode>, code: &str, now: i64) -> (r: Result<(), TeamderError>)
    ensures
        !redeemable_purpose(purpose@) ==> fails_with(r, 422, "Unknown verification purpose"@),
        redeemable_purpose(purpose@) && record is None ==> fails_with(r, 401, bad_code_message()),
        redeemable_purpose(purpose@) && record is Some && (record->0.expires_at <= now
            || record->0.code@ != code@) ==> fails_with(r, 401, bad_code_message()),
        redeemable_purpose(purpose@) && record is Some && !(record->0.expires_at <= now
            || record->0.code@ != code@) ==> r is Ok,
{
    if !(str_eq(purpose, "register") || str_eq(purpose, "login")) {
        return Err(TeamderError::Validation("Unknown verification purpose".to_string()));
    }
    match record {
        None => Err(TeamderError::Unauthorized("Invalid or expired verification code".to_string())),
        Some(rec) => {
            if rec.is_expired_at(now) || !str_eq(rec.code.as_str(), code) {
                Err(TeamderError::Unauthorized("Invalid or expired verification code".to_string()))
            } else {
                Ok(())
            }
        },
    }
}

/// The verdict on a submitted code at `now`: `None` when it may be redeemed,
/// else the status and message of the refusal.
pub open spec fn code_verdict(purpose: Seq<char>, record: Option<AuthCode>, code: Seq<char>, now: i64) -> Option<(u16, Seq<char>)> {
    if !redeemable_purpose(purpose) {
        Some((422u16, "Unknown verification purpose"@))
    } else {
        match record {
            None => Some((401u16, bad_code_message())),
            Some(rec) => if rec.expires_at <= now || rec.code@ != code {
                Some((401u16, bad_code_message()))
            } else {
                None
            },
        }
    }
}

/// The code kept for an email and purpose after an attempt to redeem one:
/// gone once redeemed, unchanged after a refusal.
pub open spec fn kept_code(purpose: Seq<char>, record: Option<AuthCode>, code: Seq<char>, now: i64) -> Option<AuthCode> {
    if code_verdict(purpose, record, code, now) is None {
        None
    } else {
        record
    }
}

/// Redeems a submitted code against the one kept for its email and purpose:
/// the verdict, and the code to keep afterwards (none once redeemed).
pub fn redeem_code(purpose: &str, record: Option<AuthCode>, code: &str, now: i64) -> (r: (Result<(), TeamderError>, Option<AuthCode>))
    ensures
        match code_verdict(purpose@, record, code@, now) {
            None => r.0 is Ok,
            Some((status, msg)) => fails_with(r.0, status, msg),
        },
        r.1 == kept_code(purpose@, record, code@, now),
{
    let verdict = verify_code_check(purpose, record.as_ref(), code, now);
    match verdict {
        Ok(()) => (Ok(()), None),
        Err(e) => (Err(e), record),
    }
}

/// Codes are single-use: once a code has been redeemed, nothing is kept for
/// its email and purpose, so no later attempt, with any code at any time,
/// is accepted.
pub proof fn law_code_single_use(
    purpose: Seq<char>,
    record: Option<AuthCode>,
    code: Seq<char>,
    now: i64,
    later_code: Seq<char>,
    later: i64,
)
    requires
        code_verdict(purpose, record, code, now) is None,
    ensures
        code_verdict(purpose, kept_code(purpose, record, code, now), later_code, later) == Some(
            (401u16, bad_code_message()),
        ),
{
}

/// What a redeemed code leads to.
pub enum Redemption {
    /// A new account is created for the email.
    CreateAccount,
    /// The existing account signs in.
    SignIn,
}

/// Decides what a redeemed code does, given the normalised email, the
/// trimmed purpose, whether the email's domain may register, and whether an
/// account exists for the email: a registration checks the domain again and
/// that no account was created meanwhile; a sign-in needs the account.
pub fn redemption_check(email: &str, purpose: &str, domain_ok: bool, account_exists: bool) -> (r: Result<Redemption, TeamderError>)
    ensures
        purpose@ == "register"@ && !domain_ok ==> fails_with(r, 422, restricted_message()),
        purpose@ == "register"@ && domain_ok && account_exists ==> fails_with(
            r,
            409,
            email@ + " is already registered"@,
        ),
        purpose@ == "register"@ && domain_ok && !account_exists ==> r matches Ok(Redemption::CreateAccount),
        purpose@ == "login"@ && account_exists ==> r matches Ok(Redemption::SignIn),
        purpose@ == "login"@ && !account_exists ==> fails_with(r, 401, bad_code_message()),
        !redeemable_purpose(purpose@) ==> fails_with(r, 422, "Unknown verification purpose"@),
{
    proof {
        reveal_strlit("register");
        reveal_strlit("login");
        assert("register"@.len() != "login"@.len());
    }
    if str_eq(purpose, "register") {
        if !domain_ok {
            return Err(
                TeamderError::Validation(
                    "Registration is restricted to @cloud.fju.edu.tw email addresses".to_string(),
                ),
            );
        }
        if account_exists {
            return Err(TeamderError::Conflict(concat(email, " is already registered")));
        }
        Ok(Redemption::CreateAccount)
    } else if str_eq(purpose, "login") {
        if account_exists {
            Ok(Redemption::SignIn)
        } else {
            Err(TeamderError::Unauthorized("Invalid or expired verification code".to_string()))
        }
    } else {
        Err(TeamderError::Validation("Unknown verification purpose".to_string()))
    }
}

/// The placeholder name of a new account: the email's local part (the part
/// before its first `'@'`, or all of it).
pub open spec fn placeholder_name_of(email: Seq<char>) -> Seq<char> {
    match first_index_of(email, '@') {
        Some(i) => email.subrange(0, i),
        None => email,
    }
}

/// Seeds a placeholder name from the email's local part; the onboarding
/// wizard fills in the real name afterwards.
pub fn placeholder_name(email: &str) -> (r: String)
    ensures
        r@ == placeholder_name_of(email@),
{
    let v = chars_of(email);
    match find_first(&v, '@') {
        None => string_of(email),
        Some(i) => {
            proof {
                lemma_first_index_of(v@, '@');
            }
            let mut out: Vec<char> = Vec::new();
            let mut j: usize = 0;
            while j < i
                invariant
                    i < v@.len(),
                    j <= i,
                    out@ == v@.subrange(0, j as int),
                decreases i - j,
            {
                out.push(v[j]);
                j = j + 1;
                proof {
                    assert(out@ =~= v@.subrange(0, j as int));
                }
            }
            string_from_chars(&out)
        },
    }
}

} // verus!
