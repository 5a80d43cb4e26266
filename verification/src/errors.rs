//! The error responder: the orchestration that turns an error condition —
//! a framework-detected status with no matched handler, or an
//! application-raised `AppError` — into a uniform JSON envelope plus, when
//! not suppressed, exactly one telemetry event.

use vstd::prelude::*;
use vstd::string::StringExecFns;
use crate::catalog::{code_of, lookup, severity_of, Severity};
use crate::envelope::{AppError, ErrorObject, ErrorResponse};
use crate::fingerprint::{fingerprint, fingerprint_of};
use crate::ids::{new_id, REQUEST_ID_LEN};
use crate::request::RequestMeta;
use crate::telemetry::TelemetryEvent;
use crate::text::{dec_rep, str_ends_with, u16_dec};

verus! {

/// An HTTP error reply: the status line, the JSON body, and the telemetry
/// event to forward to the sink — `None` when telemetry is suppressed.
#[derive(Debug)]
pub struct ErrorReply {
    pub status: u16,
    pub body: ErrorResponse,
    pub telemetry: Option<TelemetryEvent>,
}

/// The telemetry event of the status-driven path: grouped by the
/// fingerprint, which doubles as the message, and tagged with the route
/// label and the request correlation data.
pub open spec fn grouped_ok(
    ev: TelemetryEvent,
    code: Seq<char>,
    severity: Severity,
    req: RequestMeta,
    request_id: Seq<char>,
) -> bool {
    ev matches TelemetryEvent::Grouped {
        message,
        severity: sev,
        fingerprint: key,
        route,
        request_id: rid,
        method,
        path,
    } && key@ == fingerprint_of(code, req.route_label()) && message@ == key@ && sev == severity
        && route@ == req.route_label() && rid@ == request_id && method@ == req.method@ && path@
        == req.path@
}

/// The message of the typed-error path:
/// `"<method> <path> -> <status> (request_id=<id>)"`.
pub open spec fn app_message_of(
    method: Seq<char>,
    path: Seq<char>,
    status: u16,
    request_id: Seq<char>,
) -> Seq<char> {
    method + " "@ + path + " -> "@ + dec_rep(status as nat) + " (request_id="@ + request_id
        + ")"@
}

/// The telemetry event of the typed-error path: correlated by the request
/// id inside the message, with no grouping fingerprint and no tags.
pub open spec fn correlated_ok(
    ev: TelemetryEvent,
    err: AppError,
    req: RequestMeta,
    request_id: Seq<char>,
) -> bool {
    ev matches TelemetryEvent::Correlated { message, severity: sev } && sev == err.severity
        && message@ == app_message_of(req.method@, req.path@, err.status, request_id)
}

/// What the status-driven path yields for an error `code` at `status`:
/// the status line and the body's status agree, the body carries the code
/// and a freshly minted request id, and telemetry is emitted — grouped by
/// fingerprint — exactly when the request is not a suppressed noise
/// source.
pub open spec fn caught(
    r: ErrorReply,
    code: Seq<char>,
    status: u16,
    severity: Severity,
    req: RequestMeta,
) -> bool {
    &&& r.status == status
    &&& r.body.error.status == status
    &&& r.body.error.code@ == code
    &&& r.body.request_id@.len() == REQUEST_ID_LEN
    &&& (req.suppressed() <==> r.telemetry is None)
    &&& (!req.suppressed() ==> (r.telemetry matches Some(ev) && grouped_ok(
        ev,
        code,
        severity,
        req,
        r.body.request_id@,
    )))
}

/// What the typed-error path yields for an application-raised `err`: the
/// status line and the body mirror the error's own fields, and one
/// correlated telemetry event is always emitted — no suppression on this
/// path, since it originates from application logic.
pub open spec fn responded(r: ErrorReply, err: AppError, req: RequestMeta) -> bool {
    &&& r.status == err.status
    &&& r.body.error.status == err.status
    &&& r.body.error.code@ == err.code@
    &&& r.body.request_id@.len() == REQUEST_ID_LEN
    &&& (r.telemetry matches Some(ev) && correlated_ok(ev, err, req, r.body.request_id@))
}

/// Build the JSON error reply for the status-driven path: mint a request
/// id, assemble the envelope, suppress telemetry for `/favicon.ico`
/// noise, and otherwise attach the fingerprinted, tagged event.
pub fn make_response(code: &str, status: u16, req: &RequestMeta, severity: Severity) -> (r:
    ErrorReply)
    ensures
        caught(r, code@, status, severity, *req),
{
    let request_id = new_id();
    let body = ErrorResponse {
        error: ErrorObject { code: code.to_owned(), status },
        request_id: request_id.clone(),
    };

    // Ignore common noise like the browser requesting `/favicon.ico`.
    if str_ends_with(req.path.as_str(), "/favicon.ico") {
        return ErrorReply { status, body, telemetry: None };
    }

    let route_label_or_path: &str = match &req.route_template {
        Some(template) => template.as_str(),
        None => req.path.as_str(),
    };
    let (key, route_tag) = fingerprint(code, route_label_or_path);
    let route = route_tag.unwrap();

    let ev = TelemetryEvent::Grouped {
        message: key.clone(),
        severity,
        fingerprint: key,
        route,
        request_id,
        method: req.method.clone(),
        path: req.path.clone(),
    };
    ErrorReply { status, body, telemetry: Some(ev) }
}

/// The status-driven entry path: consult the catalog for the code and
/// severity of the observed status, then build the reply.
pub fn respond_status(status: u16, req: &RequestMeta) -> (r: ErrorReply)
    ensures
        caught(r, code_of(status), status, severity_of(status), *req),
{
    let (code, severity) = lookup(status);
    make_response(code.as_str(), status, req, severity)
}

impl AppError {
    /// The typed-error entry path: convert this application-raised error
    /// into its JSON reply and its correlated telemetry event.
    pub fn respond_to(self, req: &RequestMeta) -> (r: ErrorReply)
        ensures
            responded(r, self, *req),
    {
        let AppError { code, status, severity } = self;
        let request_id = new_id();
        let body = ErrorResponse {
            error: ErrorObject { code, status },
            request_id: request_id.clone(),
        };

        let message = req.method.clone().concat(" ").concat(req.path.as_str()).concat(
            " -> ",
        ).concat(u16_dec(status).as_str()).concat(" (request_id=").concat(
            request_id.as_str(),
        ).concat(")");

        let ev = TelemetryEvent::Correlated { message, severity };
        ErrorReply { status, body, telemetry: Some(ev) }
    }
}

/// Default catcher: any status handed to it falls back to the
/// `UNKNOWN_ERROR` code at `Error` severity.
pub fn default_catcher(status: u16, req: &RequestMeta) -> (r: ErrorReply)
    ensures
        caught(r, "UNKNOWN_ERROR"@, status, Severity::Error, *req),
{
    make_response("UNKNOWN_ERROR", status, req, Severity::Error)
}

/// 400 Bad Request
pub fn bad_request(req: &RequestMeta) -> (r: ErrorReply)
    ensures
        caught(r, "BAD_REQUEST"@, 400, Severity::Warning, *req),
{
    respond_status(400, req)
}

/// 401 Unauthorized
pub fn unauthorized(req: &RequestMeta) -> (r: ErrorReply)
    ensures
        caught(r, "UNAUTHORIZED"@, 401, Severity::Warning, *req),
{
    respond_status(401, req)
}

/// 403 Forbidden
pub fn forbidden(req: &RequestMeta) -> (r: ErrorReply)
    ensures
        caught(r, "FORBIDDEN"@, 403, Severity::Warning, *req),
{
    respond_status(403, req)
}

/// 404 Not Found
pub fn not_found(req: &RequestMeta) -> (r: ErrorReply)
    ensures
        caught(r, "NOT_FOUND"@, 404, Severity::Error, *req),
{
    respond_status(404, req)
}

/// 405 Method Not Allowed
pub fn method_not_allowed(req: &RequestMeta) -> (r: ErrorReply)
    ensures
        caught(r, "METHOD_NOT_ALLOWED"@, 405, Severity::Warning, *req),
{
    respond_status(405, req)
}

/// 406 Not Acceptable
pub fn not_acceptable(req: &RequestMeta) -> (r: ErrorReply)
    ensures
        caught(r, "NOT_ACCEPTABLE"@, 406, Severity::Warning, *req),
{
    respond_status(406, req)
}

/// 422 Unprocessable Entity
pub fn unprocessable_entity(req: &RequestMeta) -> (r: ErrorReply)
    ensures
        caught(r, "UNPROCESSABLE_ENTITY"@, 422, Severity::Warning, *req),
{
    respond_status(422, req)
}

/// 429 Too Many Requests
pub fn too_many_requests(req: &RequestMeta) -> (r: ErrorReply)
    ensures
        caught(r, "TOO_MANY_REQUESTS"@, 429, Severity::Warning, *req),
{
    respond_status(429, req)
}

/// 500 Internal Server Error
pub fn internal_error(req: &RequestMeta) -> (r: ErrorReply)
    ensures
        caught(r, "INTERNAL_ERROR"@, 500, Severity::Fatal, *req),
{
    respond_status(500, req)
}

/// 503 Service Unavailable
pub fn service_unavailable(req: &RequestMeta) -> (r: ErrorReply)
    ensures
        caught(r, "SERVICE_UNAVAILABLE"@, 503, Severity::Error, *req),
{
    respond_status(503, req)
}

/// The grouping fingerprint a reply's telemetry carries, if any.
pub open spec fn reply_fingerprint(r: ErrorReply) -> Option<Seq<char>> {
    match r.telemetry {
        Some(TelemetryEvent::Grouped { fingerprint: key, .. }) => Some(key@),
        _ => None,
    }
}

/// Law: every reply of the status-driven path carries the same status in
/// the HTTP status line and in the JSON body's error object.
pub proof fn lemma_body_status_matches_line(
    r: ErrorReply,
    code: Seq<char>,
    status: u16,
    severity: Severity,
    req: RequestMeta,
)
    requires
        caught(r, code, status, severity, req),
    ensures
        r.body.error.status == r.status,
{
}

/// Law: every reply of the typed-error path carries the same status in
/// the HTTP status line and in the JSON body's error object.
pub proof fn lemma_app_body_status_matches_line(r: ErrorReply, err: AppError, req: RequestMeta)
    requires
        responded(r, err, req),
    ensures
        r.body.error.status == r.status,
{
}

/// Law: the status-driven path is idempotent up to the request id — two
/// replies to identical inputs have the same status line, the same error
/// object, the same suppression decision, and the same grouping
/// fingerprint; only their request ids may differ.
pub proof fn lemma_status_path_idempotent(
    r1: ErrorReply,
    r2: ErrorReply,
    code: Seq<char>,
    status: u16,
    severity: Severity,
    req: RequestMeta,
)
    requires
        caught(r1, code, status, severity, req),
        caught(r2, code, status, severity, req),
    ensures
        r1.status == r2.status,
        r1.body.error.code@ == r2.body.error.code@,
        r1.body.error.status == r2.body.error.status,
        r1.telemetry is None <==> r2.telemetry is None,
        reply_fingerprint(r1) == reply_fingerprint(r2),
{
}

/// Law: the grouping fingerprint depends on the error code and the route
/// label alone — two unsuppressed status-driven replies for the same code
/// on requests sharing a route label carry the same fingerprint, whatever
/// their request ids and paths.
pub proof fn lemma_fingerprint_stable(
    r1: ErrorReply,
    r2: ErrorReply,
    code: Seq<char>,
    status: u16,
    severity: Severity,
    req1: RequestMeta,
    req2: RequestMeta,
)
    requires
        caught(r1, code, status, severity, req1),
        caught(r2, code, status, severity, req2),
        req1.route_label() == req2.route_label(),
        !req1.suppressed(),
        !req2.suppressed(),
    ensures
        reply_fingerprint(r1) is Some,
        reply_fingerprint(r1) == reply_fingerprint(r2),
{
}

} // verus!
