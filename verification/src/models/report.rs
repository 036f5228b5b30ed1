use vstd::prelude::*;
use crate::clock::{new_uuid, now_millis, timestamp_in_range};

verus! {

/// What a report flags.
#[derive(Clone, Copy, Debug, PartialEq, Eq, Structural)]
pub enum ReportEntityType {
    User,
    Project,
    StudyGroup,
    ProjectUpdate,
    StudyNote,
    PeerReview,
}

/// Moderation state of a report.
#[derive(Clone, Copy, Debug, PartialEq, Eq, Structural)]
pub enum ReportStatus {
    Pending,
    Reviewing,
    Resolved,
    Dismissed,
}

/// A user-submitted report flagging content or another user for moderation.
pub struct Report {
    pub id: String,
    pub reporter_id: String,
    pub entity_type: ReportEntityType,
    pub entity_id: String,
    pub reason: String,
    pub details: Option<String>,
    pub status: ReportStatus,
    pub created_at: i64,
}

impl Report {
    /// A new pending report, created now.
    pub fn new(
        reporter_id: &str,
        entity_type: ReportEntityType,
        entity_id: String,
        reason: String,
        details: Option<String>,
    ) -> (r: Self)
        ensures
            r.reporter_id@ == reporter_id@,
            r.entity_type == entity_type,
            r.entity_id == entity_id,
            r.reason == reason,
            r.details == details,
            r.status == ReportStatus::Pending,
            r.id@.len() == 36,
            timestamp_in_range(r.created_at),
    {
        Report {
            id: new_uuid(),
            reporter_id: reporter_id.to_string(),
            entity_type,
            entity_id,
            reason,
            details,
            status: ReportStatus::Pending,
            created_at: now_millis(),
        }
    }
}

/// Body of a report submission.
pub struct CreateReportRequest {
    pub entity_type: ReportEntityType,
    pub entity_id: String,
    pub reason: String,
    pub details: Option<String>,
}

/// A report as returned by the API.
pub struct ReportResponse {
    pub id: String,
    pub reporter_id: String,
    pub entity_type: ReportEntityType,
    pub entity_id: String,
    pub reason: String,
    pub details: Option<String>,
    pub status: ReportStatus,
    pub created_at: i64,
}

impl From<Report> for ReportResponse {
    fn from(r: Report) -> (out: Self) {
        ReportResponse {
            id: r.id,
            reporter_id: r.reporter_id,
            entity_type: r.entity_type,
            entity_id: r.entity_id,
            reason: r.reason,
            details: r.details,
            status: r.status,
            created_at: r.created_at,
        }
    }
}

impl vstd::std_specs::convert::FromSpecImpl<Report> for ReportResponse {
    open spec fn obeys_from_spec() -> bool {
        true
    }

    open spec fn from_spec(r: Report) -> ReportResponse {
        ReportResponse {
            id: r.id,
            reporter_id: r.reporter_id,
            entity_type: r.entity_type,
            entity_id: r.entity_id,
            reason: r.reason,
            details: r.details,
            status: r.status,
            created_at: r.created_at,
        }
    }
}

} // verus!
