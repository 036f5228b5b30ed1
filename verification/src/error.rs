//! Central error type of the Teamder domain.
use vstd::prelude::*;
use crate::text::concat;

verus! {

/// Each variant carries a human-readable message and maps to an HTTP status code.
pub enum TeamderError {
    NotFound(String),
    Unauthorized(String),
    Forbidden(String),
    Validation(String),
    Conflict(String),
    Database(String),
    Internal(String),
}

/// The message carried by any variant.
pub open spec fn error_message(e: TeamderError) -> Seq<char> {
    match e {
        TeamderError::NotFound(m) => m@,
        TeamderError::Unauthorized(m) => m@,
        TeamderError::Forbidden(m) => m@,
        TeamderError::Validation(m) => m@,
        TeamderError::Conflict(m) => m@,
        TeamderError::Database(m) => m@,
        TeamderError::Internal(m) => m@,
    }
}

/// The HTTP status code of each variant.
pub open spec fn error_status(e: TeamderError) -> u16 {
    match e {
        TeamderError::NotFound(_) => 404,
        TeamderError::Unauthorized(_) => 401,
        TeamderError::Forbidden(_) => 403,
        TeamderError::Validation(_) => 422,
        TeamderError::Conflict(_) => 409,
        TeamderError::Database(_) => 500,
        TeamderError::Internal(_) => 500,
    }
}

impl TeamderError {
    /// Returns the HTTP status code corresponding to this error variant.
    pub fn status_code(&self) -> (code: u16)
        ensures
            code == error_status(*self),
    {
        match self {
            TeamderError::NotFound(_) => 404,
            TeamderError::Unauthorized(_) => 401,
            TeamderError::Forbidden(_) => 403,
            TeamderError::Validation(_) => 422,
            TeamderError::Conflict(_) => 409,
            TeamderError::Database(_) => 500,
            TeamderError::Internal(_) => 500,
        }
    }

    /// Returns the error message string.
    pub fn message(&self) -> (m: &str)
        ensures
            m@ == error_message(*self),
    {
        match self {
            TeamderError::NotFound(msg) => msg.as_str(),
            TeamderError::Unauthorized(msg) => msg.as_str(),
            TeamderError::Forbidden(msg) => msg.as_str(),
            TeamderError::Validation(msg) => msg.as_str(),
            TeamderError::Conflict(msg) => msg.as_str(),
            TeamderError::Database(msg) => msg.as_str(),
            TeamderError::Internal(msg) => msg.as_str(),
        }
    }
}


/// `r` is an error with the given status code and message.
pub open spec fn fails_with<T>(r: Result<T, TeamderError>, status: u16, msg: Seq<char>) -> bool {
    r matches Err(e) && error_status(e) == status && error_message(e) == msg
}

/// The prefix of each variant's display form.
pub open spec fn error_prefix(e: TeamderError) -> Seq<char> {
    match e {
        TeamderError::NotFound(_) => "Not found: "@,
        TeamderError::Unauthorized(_) => "Unauthorized: "@,
        TeamderError::Forbidden(_) => "Forbidden: "@,
        TeamderError::Validation(_) => "Validation error: "@,
        TeamderError::Conflict(_) => "Conflict: "@,
        TeamderError::Database(_) => "Database error: "@,
        TeamderError::Internal(_) => "Internal error: "@,
    }
}

/// The display form of an error: its variant's prefix, then its message.
pub open spec fn error_display(e: TeamderError) -> Seq<char> {
    error_prefix(e) + error_message(e)
}

impl TeamderError {
    /// The display form of the error, e.g. `"Not found: Project not found"`.
    pub fn display(&self) -> (s: String)
        ensures
            s@ == error_display(*self),
    {
        let prefix = match self {
            TeamderError::NotFound(_) => "Not found: ",
            TeamderError::Unauthorized(_) => "Unauthorized: ",
            TeamderError::Forbidden(_) => "Forbidden: ",
            TeamderError::Validation(_) => "Validation error: ",
            TeamderError::Conflict(_) => "Conflict: ",
            TeamderError::Database(_) => "Database error: ",
            TeamderError::Internal(_) => "Internal error: ",
        };
        concat(prefix, self.message())
    }
}

/// Error response body returned by the API.
pub struct ErrorResponse {
    pub error: String,
    pub status: u16,
}

impl ErrorResponse {
    /// The response body describing `err`: its display form and status code.
    pub fn from_error(err: &TeamderError) -> (r: Self)
        ensures
            r.error@ == error_display(*err),
            r.status == error_status(*err),
    {
        ErrorResponse { error: err.display(), status: err.status_code() }
    }
}

} // verus!
