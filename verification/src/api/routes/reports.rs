use vstd::prelude::*;
use crate::error::{TeamderError, fails_with};
use crate::models::report::{CreateReportRequest, Report, ReportStatus};
use crate::text::{trim, trimmed};

verus! {

/// A report needs a reason that is not blank.
pub fn report_check(req: &CreateReportRequest) -> (r: Result<(), TeamderError>)
    ensures
        trimmed(req.reason@).len() == 0 ==> fails_with(r, 422, "reason is required"@),
        trimmed(req.reason@).len() > 0 ==> r is Ok,
{
    if trim(req.reason.as_str()).unicode_len() == 0 {
        Err(TeamderError::Validation("reason is required".to_string()))
    } else {
        Ok(())
    }
}

/// The pending report a user files.
pub fn file_report(reporter_id: &str, req: CreateReportRequest) -> (r: Report)
    ensures
        r.reporter_id@ == reporter_id@,
        r.entity_type == req.entity_type,
        r.entity_id == req.entity_id,
        r.reason == req.reason,
        r.details == req.details,
        r.status == ReportStatus::Pending,
{
    Report::new(reporter_id, req.entity_type, req.entity_id, req.reason, req.details)
}

} // verus!
