use vstd::prelude::*;
use crate::error::{TeamderError, error_message, error_status};
use crate::text::string_of;

verus! {

/// JSON error body returned to the client.
pub struct ErrorBody {
    pub code: String,
    pub message: String,
}

/// JSON error envelope.
pub struct ErrorResponse {
    pub error: ErrorBody,
}

/// An error on its way to the client.
pub struct ApiError(pub TeamderError);

impl From<TeamderError> for ApiError {
    fn from(err: TeamderError) -> (r: ApiError) {
        ApiError(err)
    }
}

impl vstd::std_specs::convert::FromSpecImpl<TeamderError> for ApiError {
    open spec fn obeys_from_spec() -> bool {
        true
    }

    open spec fn from_spec(err: TeamderError) -> ApiError {
        ApiError(err)
    }
}

/// The machine-readable code of each variant.
pub open spec fn error_code(e: TeamderError) -> Seq<char> {
    match e {
        TeamderError::NotFound(_) => "NOT_FOUND"@,
        TeamderError::Unauthorized(_) => "UNAUTHORIZED"@,
        TeamderError::Forbidden(_) => "FORBIDDEN"@,
        TeamderError::Validation(_) => "VALIDATION_ERROR"@,
        TeamderError::Conflict(_) => "CONFLICT"@,
        TeamderError::Database(_) => "DATABASE_ERROR"@,
        TeamderError::Internal(_) => "INTERNAL_ERROR"@,
    }
}

impl ApiError {
    /// The machine-readable code of the error.
    pub fn code_string(&self) -> (s: String)
        ensures
            s@ == error_code(self.0),
    {
        match &self.0 {
            TeamderError::NotFound(_) => "NOT_FOUND".to_string(),
            TeamderError::Unauthorized(_) => "UNAUTHORIZED".to_string(),
            TeamderError::Forbidden(_) => "FORBIDDEN".to_string(),
            TeamderError::Validation(_) => "VALIDATION_ERROR".to_string(),
            TeamderError::Conflict(_) => "CONFLICT".to_string(),
            TeamderError::Database(_) => "DATABASE_ERROR".to_string(),
            TeamderError::Internal(_) => "INTERNAL_ERROR".to_string(),
        }
    }

    /// The HTTP status and JSON envelope the client receives for this error.
    pub fn response(&self) -> (r: (u16, ErrorResponse))
        ensures
            r.0 == error_status(self.0),
            r.1.error.code@ == error_code(self.0),
            r.1.error.message@ == error_message(self.0),
    {
        let status = self.0.status_code();
        let body = ErrorResponse {
            error: ErrorBody { code: self.code_string(), message: string_of(self.0.message()) },
        };
        (status, body)
    }
}

} // verus!
