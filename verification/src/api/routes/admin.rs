use vstd::prelude::*;
use crate::clock::{
    MILLIS_PER_DAY, format_utc_date, format_utc_display, formattable, utc_date_text, utc_display_text,
};
use crate::text::{str_eq, string_of};

verus! {

// ── DTOs ────────────────────────────────────────────────────────────────────

/// How many documents each collection holds.
pub struct AdminStats {
    pub users: u64,
    pub projects: u64,
    pub competitions: u64,
    pub study_groups: u64,
}

/// Sign-ups and new projects of one day.
pub struct TimeseriesBucket {
    pub date: String,
    pub users: u64,
    pub projects: u64,
}

/// Acknowledgement of a successful action.
pub struct SuccessResponse {
    pub success: bool,
}

// ── Time series ─────────────────────────────────────────────────────────────

/// The number of days a range covers: `7d`, `30d`, `90d`, `365d` (or `1y`);
/// 30 for anything else and when no range is given.
pub open spec fn range_days(range: Option<Seq<char>>) -> i64 {
    match range {
        Some(r) => if r == "7d"@ {
            7
        } else if r == "90d"@ {
            90
        } else if r == "365d"@ || r == "1y"@ {
            365
        } else {
            30
        },
        None => 30,
    }
}

/// The number of days a time-series range covers.
pub fn timeseries_days(range: Option<&str>) -> (d: i64)
    ensures
        d == range_days(match range {
            Some(r) => Some(r@),
            None => None,
        }),
{
    match range {
        Some(r) => if str_eq(r, "7d") {
            7
        } else if str_eq(r, "90d") {
            90
        } else if str_eq(r, "365d") || str_eq(r, "1y") {
            365
        } else {
            30
        },
        None => 30,
    }
}

/// One empty bucket per day, oldest first, ending with the day of `now`.
pub fn timeseries_buckets(days: i64, now: i64) -> (r: Vec<TimeseriesBucket>)
    requires
        0 <= days <= 365,
        formattable(now as int),
        formattable(now - 365 * MILLIS_PER_DAY),
    ensures
        r@.len() == days,
        forall|k: int|
            0 <= k < days ==> {
                &&& #[trigger] r@[k].date@ == utc_date_text((now - (days - 1 - k) * MILLIS_PER_DAY) as i64)
                &&& r@[k].users == 0
                &&& r@[k].projects == 0
            },
{
    let mut r: Vec<TimeseriesBucket> = Vec::new();
    let mut i: i64 = days;
    while i > 0
        invariant
            0 <= i <= days <= 365,
            formattable(now as int),
            formattable(now - 365 * MILLIS_PER_DAY),
            r@.len() == days - i,
            forall|k: int|
                0 <= k < days - i ==> {
                    &&& #[trigger] r@[k].date@ == utc_date_text((now - (days - 1 - k) * MILLIS_PER_DAY) as i64)
                    &&& r@[k].users == 0
                    &&& r@[k].projects == 0
                },
        decreases i,
    {
        i = i - 1;
        let at = now - i * MILLIS_PER_DAY;
        r.push(TimeseriesBucket { date: format_utc_date(at), users: 0, projects: 0 });
    }
    r
}

// ── Export ──────────────────────────────────────────────────────────────────

/// The exported fields of one user.
pub struct UserCsvRow {
    pub id: String,
    pub name: String,
    pub email: String,
    pub role: String,
    pub department: String,
    pub university: String,
    pub is_admin: bool,
    /// The creation time, in milliseconds since the epoch.
    pub created_at: i64,
}

/// The text of a boolean.
pub open spec fn bool_text(b: bool) -> Seq<char> {
    if b {
        "true"@
    } else {
        "false"@
    }
}

/// One CSV line: the fields joined by commas, as they are.
pub open spec fn csv_line(r: UserCsvRow) -> Seq<char> {
    r.id@ + ","@ + r.name@ + ","@ + r.email@ + ","@ + r.role@ + ","@ + r.department@ + ","@
        + r.university@ + ","@ + bool_text(r.is_admin) + ","@ + utc_display_text(r.created_at)
        + "\n"@
}

/// The lines of all rows.
pub open spec fn csv_lines(rows: Seq<UserCsvRow>) -> Seq<char>
    decreases rows.len(),
{
    if rows.len() == 0 {
        Seq::empty()
    } else {
        csv_lines(rows.drop_last()) + csv_line(rows.last())
    }
}

/// The header of the export.
pub open spec fn csv_header() -> Seq<char> {
    "id,name,email,role,department,university,is_admin,created_at\n"@
}

/// The users export: a header line, then one line per user.
pub fn users_csv(rows: &Vec<UserCsvRow>) -> (csv: String)
    requires
        forall|i: int| 0 <= i < rows@.len() ==> formattable(#[trigger] rows@[i].created_at as int),
    ensures
        csv@ == csv_header() + csv_lines(rows@),
{
    let mut csv = string_of("id,name,email,role,department,university,is_admin,created_at\n");
    let n = rows.len();
    let mut i: usize = 0;
    proof {
        assert(rows@.take(0) =~= Seq::<UserCsvRow>::empty());
        assert(csv@ + Seq::<char>::empty() =~= csv@);
    }
    while i < n
        invariant
            n == rows@.len(),
            i <= n,
            csv@ == csv_header() + csv_lines(rows@.take(i as int)),
            forall|k: int| 0 <= k < rows@.len() ==> formattable(#[trigger] rows@[k].created_at as int),
        decreases n - i,
    {
        let r = &rows[i];
        proof {
            assert(rows@.take(i + 1).drop_last() =~= rows@.take(i as int));
        }
        csv.append(r.id.as_str());
        csv.append(",");
        csv.append(r.name.as_str());
        csv.append(",");
        csv.append(r.email.as_str());
        csv.append(",");
        csv.append(r.role.as_str());
        csv.append(",");
        csv.append(r.department.as_str());
        csv.append(",");
        csv.append(r.university.as_str());
        csv.append(",");
        csv.append(if r.is_admin {
            "true"
        } else {
            "false"
        });
        csv.append(",");
        let shown = format_utc_display(r.created_at);
        csv.append(shown.as_str());
        csv.append("\n");
        proof {
            assert(csv@ =~= csv_header() + csv_lines(rows@.take(i + 1)));
        }
        i = i + 1;
    }
    proof {
        assert(rows@.take(n as int) =~= rows@);
    }
    csv
}

} // verus!
