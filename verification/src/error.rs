use vstd::prelude::*;
use vstd::string::StringExecFns;

verus! {

/// The error taxonomy of the repository port. Engine detail travels in the
/// `Database` and `Internal` payloads for server-side logging; it is never
/// echoed to the external caller.
#[derive(Debug, Clone)]
pub enum AppError {
    /// The requested identifier has no matching record. Never raised by
    /// delete, which is idempotent.
    NotFound,
    /// The caller's payload is not a JSON object; a boundary-only error.
    InvalidJson(String),
    /// A connection, I/O or constraint failure of the backing store.
    Database(String),
    /// Previously persisted bytes no longer parse, or another server
    /// fault; distinct from a storage failure.
    Internal(String),
}

impl AppError {
    /// The HTTP status the error maps to at the boundary.
    pub fn status(&self) -> (s: u16)
        ensures
            s == (match self {
                AppError::NotFound => 404u16,
                AppError::InvalidJson(_) => 400u16,
                AppError::Database(_) => 500u16,
                AppError::Internal(_) => 500u16,
            }),
    {
        match self {
            AppError::NotFound => 404,
            AppError::InvalidJson(_) => 400,
            AppError::Database(_) => 500,
            AppError::Internal(_) => 500,
        }
    }

    /// The message shown to the external caller. Only the invalid-JSON
    /// detail is echoed; storage and internal detail stays server-side.
    pub fn public_message(&self) -> (m: String)
        ensures
            m@ == (match self {
                AppError::NotFound => "Resource not found"@,
                AppError::InvalidJson(detail) => "Invalid JSON: "@ + detail@,
                AppError::Database(_) => "Database error"@,
                AppError::Internal(_) => "Internal server error"@,
            }),
    {
        match self {
            AppError::NotFound => "Resource not found".to_owned(),
            AppError::InvalidJson(detail) => {
                let mut m = "Invalid JSON: ".to_owned();
                m.append(detail.as_str());
                m
            },
            AppError::Database(_) => "Database error".to_owned(),
            AppError::Internal(_) => "Internal server error".to_owned(),
        }
    }
}

} // verus!
