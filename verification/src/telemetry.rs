//! The telemetry event the responder emits: a structured value the
//! surrounding application forwards to the error-tracking sink. Failure of
//! that sink never reaches the responder; the event is fire-and-forget.

use vstd::prelude::*;
use crate::catalog::Severity;

verus! {

/// One telemetry event. Status-driven responses group by a fingerprint
/// and carry route/request tags; application-raised responses correlate
/// by request id inside the message alone. The asymmetry is deliberate
/// and preserved: the two entry paths are architecturally independent.
#[derive(Debug)]
pub enum TelemetryEvent {
    /// A grouped event from the status-driven path: the message is the
    /// fingerprint string itself, and the scope carries the fingerprint
    /// plus `route`, `request_id`, `method` and `path` tags.
    Grouped {
        message: String,
        severity: Severity,
        fingerprint: String,
        route: String,
        request_id: String,
        method: String,
        path: String,
    },
    /// A correlated event from the typed-error path: a message of the
    /// form `"<method> <path> -> <status> (request_id=<id>)"`, with no
    /// grouping fingerprint and no tags.
    Correlated { message: String, severity: Severity },
}

} // verus!
