//! The data shapes of the JSON error envelope returned to clients, and the
//! application-raised error value they are built from.

use vstd::prelude::*;
use crate::catalog::Severity;

verus! {

/// The client-facing error payload: a stable machine-readable code and the
/// numeric HTTP status.
#[derive(Debug)]
pub struct ErrorObject {
    pub code: String,
    pub status: u16,
}

/// The full JSON body of an error response: the error payload plus a
/// request id that correlates the response with its telemetry event.
#[derive(Debug)]
pub struct ErrorResponse {
    pub error: ErrorObject,
    pub request_id: String,
}

/// An application-raised error: a handler returns one of these and the
/// responder converts it into an `ErrorResponse` at the boundary.
#[derive(Debug)]
pub struct AppError {
    pub code: String,
    pub status: u16,
    pub severity: Severity,
}

impl AppError {
    /// Construct a new `AppError` with a short `code`, an HTTP `status`
    /// and a `severity` that controls how the error is reported.
    pub fn new(code: &str, status: u16, severity: Severity) -> (r: AppError)
        ensures
            r.code@ == code@,
            r.status == status,
            r.severity == severity,
    {
        AppError { code: code.to_owned(), status, severity }
    }
}

} // verus!
