use vstd::prelude::*;
use crate::error::{fails_with, TeamderError};
use crate::text::{
    chars_of, concat, digits, pad_zeros, parse_u16, parsed_u16, push_char, render_digits, str_eq,
    string_from_chars, string_of, trim, trimmed, zero_pad,
};

verus! {

// ── Percent-encoding ────────────────────────────────────────────────────────

/// Characters left as they are by `urlencode`.
pub open spec fn is_unreserved(c: char) -> bool {
    ('A' <= c && c <= 'Z') || ('a' <= c && c <= 'z') || ('0' <= c && c <= '9') || c == '-' || c
        == '_' || c == '.' || c == '~'
}

/// The encoding of one character: itself when unreserved, `%` and its code
/// point in upper-case hexadecimal (at least two digits) otherwise.
pub open spec fn encode_char(c: char) -> Seq<char> {
    if is_unreserved(c) {
        seq![c]
    } else if c == '@' {
        "%40"@
    } else if c == '+' {
        "%2B"@
    } else {
        seq!['%'] + zero_pad(digits(c as u32 as nat, 16), 2)
    }
}

/// The encoding of a string: its characters encoded one by one.
pub open spec fn url_encoded(s: Seq<char>) -> Seq<char>
    decreases s.len(),
{
    if s.len() == 0 {
        seq![]
    } else {
        url_encoded(s.drop_last()) + encode_char(s.last())
    }
}

/// Minimal percent-encoding for the email query parameter.
pub fn urlencode(s: &str) -> (r: String)
    ensures
        r@ == url_encoded(s@),
{
    let v = chars_of(s);
    let n = v.len();
    let mut r = String::new();
    let mut i: usize = 0;
    while i < n
        invariant
            n == v@.len(),
            v@ == s@,
            i <= n,
            r@ == url_encoded(v@.take(i as int)),
        decreases n - i,
    {
        let c = v[i];
        proof {
            assert(v@.take(i + 1).drop_last() == v@.take(i as int));
            assert(v@.take(i + 1).last() == c);
        }
        if ('A' <= c && c <= 'Z') || ('a' <= c && c <= 'z') || ('0' <= c && c <= '9') || c == '-'
            || c == '_' || c == '.' || c == '~' {
            push_char(&mut r, c);
        } else if c == '@' {
            r.append("%40");
        } else if c == '+' {
            r.append("%2B");
        } else {
            let hex = render_digits(c as u32 as u64, 16);
            let padded = pad_zeros(hex.as_str(), 2);
            push_char(&mut r, '%');
            r.append(padded.as_str());
            proof {
                assert(seq!['%'] + padded@ == seq![].push('%') + padded@);
            }
        }
        i = i + 1;
    }
    proof {
        assert(v@.take(n as int) == v@);
    }
    r
}

// ── Verification links ──────────────────────────────────────────────────────

/// `s` without its trailing `'/'` characters.
pub open spec fn without_trailing_slashes(s: Seq<char>) -> Seq<char>
    decreases s.len(),
{
    if s.len() > 0 && s.last() == '/' {
        without_trailing_slashes(s.drop_last())
    } else {
        s
    }
}

proof fn lemma_without_trailing_slashes(s: Seq<char>, k: int)
    requires
        0 <= k <= s.len(),
        k == 0 || s[k - 1] != '/',
        forall|j: int| k <= j < s.len() ==> s[j] == '/',
    ensures
        without_trailing_slashes(s) == s.subrange(0, k),
    decreases s.len(),
{
    if s.len() > k {
        lemma_without_trailing_slashes(s.drop_last(), k);
        assert(s.drop_last().subrange(0, k) == s.subrange(0, k));
    } else {
        assert(s.subrange(0, k) == s);
    }
}

/// A string without its trailing `'/'` characters.
pub fn trim_trailing_slashes(s: &str) -> (r: String)
    ensures
        r@ == without_trailing_slashes(s@),
{
    let v = chars_of(s);
    let mut k: usize = v.len();
    while k > 0 && v[k - 1] == '/'
        invariant
            k <= v@.len(),
            forall|j: int| k <= j < v@.len() ==> v@[j] == '/',
        decreases k,
    {
        k = k - 1;
    }
    proof {
        lemma_without_trailing_slashes(v@, k as int);
    }
    let mut out: Vec<char> = Vec::new();
    let mut i: usize = 0;
    while i < k
        invariant
            k <= v@.len(),
            i <= k,
            out@ == v@.subrange(0, i as int),
        decreases k - i,
    {
        out.push(v[i]);
        i = i + 1;
        proof {
            assert(out@ =~= v@.subrange(0, i as int));
        }
    }
    string_from_chars(&out)
}

/// The magic verification link a code email points to.
pub open spec fn verification_link(base_url: Seq<char>, email: Seq<char>, code: Seq<char>, purpose: Seq<char>) -> Seq<char> {
    without_trailing_slashes(base_url) + "/verify?email="@ + url_encoded(email) + "&code="@ + code
        + "&purpose="@ + purpose
}

/// Builds the magic verification link the email links to.
pub fn verify_link(base_url: &str, email: &str, code: &str, purpose: &str) -> (r: String)
    ensures
        r@ == verification_link(base_url@, email@, code@, purpose@),
{
    let mut r = trim_trailing_slashes(base_url);
    r.append("/verify?email=");
    let enc = urlencode(email);
    r.append(enc.as_str());
    r.append("&code=");
    r.append(code);
    r.append("&purpose=");
    r.append(purpose);
    r
}

/// The action a verification email asks the reader to take, by purpose.
pub open spec fn action_for(purpose: Seq<char>) -> Seq<char> {
    if purpose == "register"@ {
        "complete your Teamder sign-up"@
    } else if purpose == "delete"@ {
        "confirm deleting your Teamder account"@
    } else {
        "sign in to Teamder"@
    }
}

/// The action a verification email asks the reader to take.
pub fn mail_action(purpose: &str) -> (r: &'static str)
    ensures
        r@ == action_for(purpose@),
{
    if str_eq(purpose, "register") {
        "complete your Teamder sign-up"
    } else if str_eq(purpose, "delete") {
        "confirm deleting your Teamder account"
    } else {
        "sign in to Teamder"
    }
}

// ── Settings ────────────────────────────────────────────────────────────────

/// How the mailer reaches its SMTP relay.
pub struct SmtpSettings {
    pub host: String,
    pub port: u16,
    pub username: String,
    pub password: String,
    pub from: String,
    /// Implicit TLS (port 465); STARTTLS otherwise.
    pub implicit_tls: bool,
}

/// The SMTP settings from the configured values (`SMTP_HOST`, `SMTP_PORT`,
/// `SMTP_USERNAME`, `SMTP_PASSWORD`, `SMTP_FROM`): none without a non-blank
/// host (the mailer then runs in development mode); port 587 when unset or
/// unparsable; the sender defaults to the user name.
pub fn smtp_settings(
    host: Option<&str>,
    port: Option<&str>,
    username: Option<&str>,
    password: Option<&str>,
    from: Option<&str>,
) -> (r: Option<SmtpSettings>)
    ensures
        (host is None || trimmed(host->0@).len() == 0) <==> r is None,
        r matches Some(st) ==> {
            let p: u16 = match port {
                Some(t) => match parsed_u16(t@) {
                    Some(n) => n,
                    None => 587,
                },
                None => 587,
            };
            let user: Seq<char> = match username {
                Some(u) => u@,
                None => Seq::empty(),
            };
            &&& st.host@ == host->0@
            &&& st.port == p
            &&& st.username@ == user
            &&& st.password@ == (match password {
                Some(w) => w@,
                None => Seq::empty(),
            })
            &&& st.from@ == (match from {
                Some(f) => f@,
                None => user,
            })
            &&& st.implicit_tls == (p == 465)
        },
{
    let host = match host {
        Some(h) => {
            if trim(h).unicode_len() == 0 {
                return None;
            }
            h
        },
        None => return None,
    };
    let port: u16 = match port {
        Some(t) => match parse_u16(t) {
            Some(n) => n,
            None => 587,
        },
        None => 587,
    };
    let username = match username {
        Some(u) => string_of(u),
        None => String::new(),
    };
    let password = match password {
        Some(w) => string_of(w),
        None => String::new(),
    };
    let from = match from {
        Some(f) => string_of(f),
        None => username.clone(),
    };
    Some(
        SmtpSettings {
            host: string_of(host),
            port,
            username,
            password,
            from,
            implicit_tls: port == 465,
        },
    )
}

/// The frontend base URL used in verification links, `http://localhost:3000`
/// when unset.
pub fn app_base_url(configured: Option<&str>) -> (r: String)
    ensures
        r@ == (match configured {
            Some(b) => b@,
            None => "http://localhost:3000"@,
        }),
{
    match configured {
        Some(b) => string_of(b),
        None => "http://localhost:3000".to_string(),
    }
}

// ── The code email ──────────────────────────────────────────────────────────

/// The plain-text body of a code email.
pub open spec fn code_email_text_of(code: Seq<char>, action: Seq<char>, link: Seq<char>) -> Seq<char> {
    "Your Teamder verification code is: "@ + code + "\n\nIt expires in 10 minutes. Enter it to "@
        + action + ".\n\nOr open this link: "@ + link
        + "\n\nIf you didn't request this, you can ignore this email."@
}

/// The plain-text body of a code email.
pub fn code_email_text(code: &str, action: &str, link: &str) -> (t: String)
    ensures
        t@ == code_email_text_of(code@, action@, link@),
{
    let mut t = concat("Your Teamder verification code is: ", code);
    t.append("\n\nIt expires in 10 minutes. Enter it to ");
    t.append(action);
    t.append(".\n\nOr open this link: ");
    t.append(link);
    t.append("\n\nIf you didn't request this, you can ignore this email.");
    t
}

/// The HTML body of a code email.
pub open spec fn code_email_html_of(code: Seq<char>, action: Seq<char>, link: Seq<char>) -> Seq<char> {
    "<div style=\"font-family:sans-serif;color:#1F2A2F\"><h2 style=\"color:#DD6E42\">Teamder</h2><p>Your verification code to "@
        + action
        + ":</p><p style=\"font-size:30px;font-weight:700;letter-spacing:6px;color:#2C3E45\">"@
        + code + "</p><p>It expires in 10 minutes.</p><p><a href=\""@ + link
        + "\" style=\"color:#DD6E42\">Or click here to verify</a></p><p style=\"color:#8A99A0;font-size:12px\">If you didn't request this, ignore this email.</p></div>"@
}

/// The HTML body of a code email.
pub fn code_email_html(code: &str, action: &str, link: &str) -> (t: String)
    ensures
        t@ == code_email_html_of(code@, action@, link@),
{
    let mut t = concat(
        "<div style=\"font-family:sans-serif;color:#1F2A2F\"><h2 style=\"color:#DD6E42\">Teamder</h2><p>Your verification code to ",
        action,
    );
    t.append(":</p><p style=\"font-size:30px;font-weight:700;letter-spacing:6px;color:#2C3E45\">");
    t.append(code);
    t.append("</p><p>It expires in 10 minutes.</p><p><a href=\"");
    t.append(link);
    t.append(
        "\" style=\"color:#DD6E42\">Or click here to verify</a></p><p style=\"color:#8A99A0;font-size:12px\">If you didn't request this, ignore this email.</p></div>",
    );
    t
}

// ── Addresses ───────────────────────────────────────────────────────────────

/// What lettre's `Mailbox` parser (`str::parse::<lettre::message::Mailbox>`)
/// makes of a text: `Ok` when it is a mailbox, else the error's `Display`
/// text.
pub uninterp spec fn mailbox_parse(addr: Seq<char>) -> Result<(), Seq<char>>;

/// Calls `str::parse::<lettre::message::Mailbox>`; the outcome is named by
/// `mailbox_parse`, the error by its `Display` text.
#[verifier::external_body]
fn parse_mailbox(addr: &str) -> (r: Result<(), String>)
    ensures
        match r {
            Ok(()) => mailbox_parse(addr@) is Ok,
            Err(m) => mailbox_parse(addr@) == Err::<(), Seq<char>>(m@),
        },
{
    addr.parse::<lettre::message::Mailbox>().map(|_| ()).map_err(|e| e.to_string())
}

/// The sender and recipient of a code email must both be mailboxes: a bad
/// configured sender is an internal error carrying the parser's message,
/// checked first; a bad recipient is a validation error.
pub fn mail_addresses_check(from: &str, to: &str) -> (r: Result<(), TeamderError>)
    ensures
        mailbox_parse(from@) matches Err(m) ==> fails_with(r, 500, "bad SMTP_FROM address: "@ + m),
        mailbox_parse(from@) is Ok && mailbox_parse(to@) is Err ==> fails_with(
            r,
            422,
            "Invalid email address"@,
        ),
        mailbox_parse(from@) is Ok && mailbox_parse(to@) is Ok ==> r is Ok,
{
    match parse_mailbox(from) {
        Ok(()) => {},
        Err(m) => return Err(TeamderError::Internal(concat("bad SMTP_FROM address: ", m.as_str()))),
    }
    match parse_mailbox(to) {
        Ok(()) => Ok(()),
        Err(_) => Err(TeamderError::Validation("Invalid email address".to_string())),
    }
}

} // verus!
