//! The wall clock and random identifiers, from `chrono` and `uuid`.
//!
//! Timestamps in this crate are milliseconds since the Unix epoch (UTC).
use vstd::prelude::*;
use chrono::TimeZone;
use crate::text::{parse_i64, parsed_i64};

verus! {

/// Every `chrono::DateTime<Utc>` lies within chrono's supported years
/// (about ±262 000 years), so its millisecond timestamp is within this bound.
pub open spec fn timestamp_in_range(ms: i64) -> bool {
    -8_400_000_000_000_000 <= ms <= 8_400_000_000_000_000
}

/// Milliseconds per day.
pub const MILLIS_PER_DAY: i64 = 86_400_000;

/// The UTC calendar day of a millisecond timestamp, counted from the epoch
/// (days before it are negative): what `date_naive()` tells apart.
pub open spec fn utc_day(ms: i64) -> int {
    ms as int / MILLIS_PER_DAY as int
}

/// The UTC calendar day of a millisecond timestamp, rounded toward negative
/// infinity.
pub fn utc_day_index(ms: i64) -> (d: i64)
    ensures
        d == utc_day(ms),
{
    let q = ms / MILLIS_PER_DAY;
    if ms >= 0 || q * MILLIS_PER_DAY == ms {
        q
    } else {
        q - 1
    }
}

/// Calls `chrono::Utc::now()` and returns its `timestamp_millis()`.
/// The current time is not stated; only that it is a representable
/// chrono instant.
#[verifier::external_body]
pub fn now_millis() -> (ms: i64)
    ensures
        timestamp_in_range(ms),
{
    chrono::Utc::now().timestamp_millis()
}

/// Calls `uuid::Uuid::new_v4()` and renders it with `to_string()`: a random
/// identifier in the 36-character hyphenated form. Which identifier comes
/// back is not stated.
#[verifier::external_body]
pub fn new_uuid() -> (id: String)
    ensures
        id@.len() == 36,
{
    uuid::Uuid::new_v4().to_string()
}

/// Calls `uuid::Uuid::new_v4()` and returns its 128-bit value (`as_u128`).
/// Which value comes back is not stated.
#[verifier::external_body]
pub fn random_u128() -> (n: u128) {
    uuid::Uuid::new_v4().as_u128()
}

/// Instants chrono represents for certain: within about 259 800 years of
/// the epoch (chrono itself reaches years -262143 to 262142).
pub open spec fn formattable(ms: int) -> bool {
    -8_200_000_000_000_000 <= ms <= 8_200_000_000_000_000
}

/// What chrono's `format("%Y-%m-%d")` writes for the UTC instant `ms`
/// milliseconds after the epoch.
pub uninterp spec fn utc_date_text(ms: i64) -> Seq<char>;

/// What chrono's `Display` writes for the UTC instant `ms` milliseconds after
/// the epoch (`2024-05-01 12:00:00 UTC`, with fractional seconds when there
/// are any).
pub uninterp spec fn utc_display_text(ms: i64) -> Seq<char>;

/// Calls `DateTime::<Utc>::from_timestamp_millis` and formats the instant
/// with `format("%Y-%m-%d")`; the text is named by `utc_date_text`.
#[verifier::external_body]
pub fn format_utc_date(ms: i64) -> (s: String)
    requires
        formattable(ms as int),
    ensures
        s@ == utc_date_text(ms),
{
    chrono::DateTime::<chrono::Utc>::from_timestamp_millis(ms).map(
        |d| d.format("%Y-%m-%d").to_string(),
    ).unwrap_or_default()
}

/// Calls `DateTime::<Utc>::from_timestamp_millis` and renders the instant
/// with `to_string()`; the text is named by `utc_display_text`.
#[verifier::external_body]
pub fn format_utc_display(ms: i64) -> (s: String)
    requires
        formattable(ms as int),
    ensures
        s@ == utc_display_text(ms),
{
    chrono::DateTime::<chrono::Utc>::from_timestamp_millis(ms).map(|d| d.to_string()).unwrap_or_default()
}

// ── Stored dates ────────────────────────────────────────────────────────────

/// A date as documents store it: milliseconds, a BSON `$numberLong` text, or
/// RFC 3339 text.
pub enum StoredDate {
    Millis(i64),
    NumberLong(String),
    Text(String),
}

/// Whether chrono has a UTC instant `ms` milliseconds after the epoch.
pub uninterp spec fn chrono_has_millis(ms: i64) -> bool;

/// What chrono's `DateTime::parse_from_rfc3339` makes of a text: the
/// instant's milliseconds since the epoch, or the text of the error.
pub uninterp spec fn rfc3339_millis(text: Seq<char>) -> Result<i64, Seq<char>>;

/// Calls `Utc.timestamp_millis_opt(ms).single()`: whether the instant
/// exists, named by `chrono_has_millis`; it does within `formattable`.
#[verifier::external_body]
pub fn millis_representable(ms: i64) -> (r: bool)
    ensures
        r == chrono_has_millis(ms),
        formattable(ms as int) ==> r,
{
    chrono::Utc.timestamp_millis_opt(ms).single().is_some()
}

/// Calls `DateTime::parse_from_rfc3339` and reads the instant's
/// `timestamp_millis()`, or the error's `Display` text.
#[verifier::external_body]
pub fn parse_rfc3339_millis(text: &str) -> (r: Result<i64, String>)
    ensures
        match r {
            Ok(ms) => rfc3339_millis(text@) == Ok::<i64, Seq<char>>(ms),
            Err(m) => rfc3339_millis(text@) == Err::<i64, Seq<char>>(m@),
        },
{
    chrono::DateTime::parse_from_rfc3339(text).map(|d| d.timestamp_millis()).map_err(|e| e.to_string())
}

/// A millisecond count checked to be a chrono instant.
pub open spec fn checked_millis(ms: i64) -> Result<i64, Seq<char>> {
    if chrono_has_millis(ms) {
        Ok(ms)
    } else {
        Err("invalid millisecond timestamp"@)
    }
}

/// The instant a stored date names, or why it names none.
pub open spec fn stored_date_millis(d: StoredDate) -> Result<i64, Seq<char>> {
    match d {
        StoredDate::Millis(n) => checked_millis(n),
        StoredDate::NumberLong(t) => match parsed_i64(t@) {
            Ok(n) => checked_millis(n),
            Err(m) => Err(m),
        },
        StoredDate::Text(t) => rfc3339_millis(t@),
    }
}

/// Milliseconds checked to be a chrono instant.
pub fn millis_checked(ms: i64) -> (r: Result<i64, String>)
    ensures
        match checked_millis(ms) {
            Ok(n) => r == Ok::<i64, String>(n),
            Err(m) => r matches Err(e) && e@ == m,
        },
{
    if millis_representable(ms) {
        Ok(ms)
    } else {
        Err("invalid millisecond timestamp".to_string())
    }
}

/// Reads a stored date, whichever of its forms it takes.
pub fn stored_date_to_millis(d: StoredDate) -> (r: Result<i64, String>)
    ensures
        match stored_date_millis(d) {
            Ok(n) => r == Ok::<i64, String>(n),
            Err(m) => r matches Err(e) && e@ == m,
        },
{
    match d {
        StoredDate::Millis(n) => millis_checked(n),
        StoredDate::NumberLong(t) => match parse_i64(t.as_str()) {
            Ok(n) => millis_checked(n),
            Err(m) => Err(m),
        },
        StoredDate::Text(t) => parse_rfc3339_millis(t.as_str()),
    }
}

} // verus!
