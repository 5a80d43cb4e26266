//! The fixed, read-only table mapping an HTTP status code to a stable
//! machine-readable error code and a telemetry severity.

use vstd::prelude::*;

verus! {

/// Telemetry severity attached to a reported event, never surfaced to the
/// client. Ordered from least to most severe.
#[derive(Clone, Copy, Debug, PartialEq, Eq, Structural, PartialOrd, Ord)]
pub enum Severity {
    Warning,
    Error,
    Fatal,
}

/// The stable error code the catalog assigns to a status: the exact table,
/// with `UNKNOWN_ERROR` for every status outside it.
pub open spec fn code_of(status: u16) -> Seq<char> {
    if status == 400 {
        "BAD_REQUEST"@
    } else if status == 401 {
        "UNAUTHORIZED"@
    } else if status == 403 {
        "FORBIDDEN"@
    } else if status == 404 {
        "NOT_FOUND"@
    } else if status == 405 {
        "METHOD_NOT_ALLOWED"@
    } else if status == 406 {
        "NOT_ACCEPTABLE"@
    } else if status == 422 {
        "UNPROCESSABLE_ENTITY"@
    } else if status == 429 {
        "TOO_MANY_REQUESTS"@
    } else if status == 500 {
        "INTERNAL_ERROR"@
    } else if status == 503 {
        "SERVICE_UNAVAILABLE"@
    } else {
        "UNKNOWN_ERROR"@
    }
}

/// The severity the catalog assigns to a status: client-input errors are
/// warnings, not-found and service-unavailable are errors, internal
/// failures are fatal, and everything unmapped is an error.
pub open spec fn severity_of(status: u16) -> Severity {
    if status == 400 || status == 401 || status == 403 || status == 405 || status == 406
        || status == 422 || status == 429 {
        Severity::Warning
    } else if status == 500 {
        Severity::Fatal
    } else {
        Severity::Error
    }
}

/// Look a status up in the catalog: the single source of truth for the
/// code and severity used on the status-driven path.
pub fn lookup(status: u16) -> (r: (String, Severity))
    ensures
        r.0@ == code_of(status),
        r.1 == severity_of(status),
{
    match status {
        400 => ("BAD_REQUEST".to_owned(), Severity::Warning),
        401 => ("UNAUTHORIZED".to_owned(), Severity::Warning),
        403 => ("FORBIDDEN".to_owned(), Severity::Warning),
        404 => ("NOT_FOUND".to_owned(), Severity::Error),
        405 => ("METHOD_NOT_ALLOWED".to_owned(), Severity::Warning),
        406 => ("NOT_ACCEPTABLE".to_owned(), Severity::Warning),
        422 => ("UNPROCESSABLE_ENTITY".to_owned(), Severity::Warning),
        429 => ("TOO_MANY_REQUESTS".to_owned(), Severity::Warning),
        500 => ("INTERNAL_ERROR".to_owned(), Severity::Fatal),
        503 => ("SERVICE_UNAVAILABLE".to_owned(), Severity::Error),
        _ => ("UNKNOWN_ERROR".to_owned(), Severity::Error),
    }
}

} // verus!
