use wings::catalog::Severity;
use wings::envelope::AppError;
use wings::errors::{
    bad_request, default_catcher, internal_error, make_response, not_found, respond_status,
    service_unavailable, too_many_requests, ErrorReply,
};
use wings::request::RequestMeta;
use wings::telemetry::TelemetryEvent;

fn meta(method: &str, path: &str, route: Option<&str>) -> RequestMeta {
    RequestMeta {
        method: method.to_owned(),
        path: path.to_owned(),
        route_template: route.map(|r| r.to_owned()),
    }
}

fn grouped_fingerprint(r: &ErrorReply) -> &str {
    match r.telemetry.as_ref().expect("telemetry expected") {
        TelemetryEvent::Grouped { fingerprint, .. } => fingerprint,
        TelemetryEvent::Correlated { .. } => panic!("expected a grouped event"),
    }
}

#[test]
fn status_line_matches_body_status() {
    let req = meta("GET", "/users/7", Some("/users/<id>"));
    for (r, want) in [
        (bad_request(&req), 400u16),
        (not_found(&req), 404),
        (internal_error(&req), 500),
        (service_unavailable(&req), 503),
        (default_catcher(418, &req), 418),
        (AppError::new("CUSTOM", 409, Severity::Warning).respond_to(&req), 409),
    ] {
        assert_eq!(r.status, want);
        assert_eq!(r.body.error.status, want);
    }
}

#[test]
fn favicon_suppresses_telemetry_but_yields_body() {
    let req = meta("GET", "/favicon.ico", None);
    let r = not_found(&req);
    assert!(r.telemetry.is_none());
    assert_eq!(r.status, 404);
    assert_eq!(r.body.error.code, "NOT_FOUND");
    assert_eq!(r.body.error.status, 404);
    assert!(!r.body.request_id.is_empty());

    let nested = meta("GET", "/static/favicon.ico", None);
    assert!(not_found(&nested).telemetry.is_none());
}

#[test]
fn typed_path_is_not_suppressed_on_favicon() {
    let req = meta("GET", "/favicon.ico", None);
    let r = AppError::new("CUSTOM", 409, Severity::Warning).respond_to(&req);
    assert!(r.telemetry.is_some());
}

#[test]
fn fingerprint_is_stable_per_route_and_distinct_across_routes() {
    let req = meta("GET", "/users/7", Some("/users/<id>"));
    let again = meta("GET", "/users/8", Some("/users/<id>"));
    let r1 = not_found(&req);
    let r2 = not_found(&again);
    assert_eq!(grouped_fingerprint(&r1), "NOT_FOUND - /USERS/<ID>");
    assert_eq!(grouped_fingerprint(&r1), grouped_fingerprint(&r2));

    let elsewhere = meta("GET", "/teams/7", Some("/teams/<id>"));
    let r3 = not_found(&elsewhere);
    assert_eq!(grouped_fingerprint(&r3), "NOT_FOUND - /TEAMS/<ID>");
    assert_ne!(grouped_fingerprint(&r1), grouped_fingerprint(&r3));
}

#[test]
fn unmatched_route_falls_back_to_raw_path() {
    let req = meta("GET", "/no/such/page", None);
    let r = not_found(&req);
    assert_eq!(grouped_fingerprint(&r), "NOT_FOUND - /NO/SUCH/PAGE");
}

#[test]
fn grouped_event_carries_message_and_tags() {
    let req = meta("POST", "/users/7", Some("/users/<id>"));
    let r = too_many_requests(&req);
    match r.telemetry.expect("telemetry expected") {
        TelemetryEvent::Grouped {
            message,
            severity,
            fingerprint,
            route,
            request_id,
            method,
            path,
        } => {
            assert_eq!(message, "TOO_MANY_REQUESTS - /USERS/<ID>");
            assert_eq!(message, fingerprint);
            assert_eq!(severity, Severity::Warning);
            assert_eq!(route, "/USERS/<ID>");
            assert_eq!(request_id, r.body.request_id);
            assert_eq!(method, "POST");
            assert_eq!(path, "/users/7");
        }
        TelemetryEvent::Correlated { .. } => panic!("expected a grouped event"),
    }
}

#[test]
fn app_error_conflict_reports_method_uri_status_and_id() {
    let req = meta("PUT", "/things/3", Some("/things/<id>"));
    let err = AppError::new("CUSTOM_CONFLICT", 409, Severity::Warning);
    let r = err.respond_to(&req);
    assert_eq!(r.status, 409);
    assert_eq!(r.body.error.code, "CUSTOM_CONFLICT");
    match r.telemetry.expect("telemetry expected") {
        TelemetryEvent::Correlated { message, severity } => {
            assert_eq!(severity, Severity::Warning);
            assert_eq!(
                message,
                format!("PUT /things/3 -> 409 (request_id={})", r.body.request_id)
            );
            assert!(message.contains("PUT"));
            assert!(message.contains("/things/3"));
            assert!(message.contains("409"));
            assert!(message.contains(&r.body.request_id));
        }
        TelemetryEvent::Grouped { .. } => panic!("expected a correlated event"),
    }
}

#[test]
fn status_path_idempotent_up_to_request_id() {
    let req = meta("GET", "/users/7", Some("/users/<id>"));
    let r1 = respond_status(429, &req);
    let r2 = respond_status(429, &req);
    assert_eq!(r1.status, r2.status);
    assert_eq!(r1.body.error.code, r2.body.error.code);
    assert_eq!(r1.body.error.status, r2.body.error.status);
    assert_ne!(r1.body.request_id, r2.body.request_id);
    assert_eq!(grouped_fingerprint(&r1), grouped_fingerprint(&r2));
}

#[test]
fn default_catcher_always_uses_unknown_error() {
    let req = meta("GET", "/anything", None);
    for status in [404u16, 418, 502, 504] {
        let r = default_catcher(status, &req);
        assert_eq!(r.status, status);
        assert_eq!(r.body.error.code, "UNKNOWN_ERROR");
    }
}

#[test]
fn make_response_carries_given_code_and_severity() {
    let req = meta("GET", "/x", None);
    let r = make_response("SOMETHING_ODD", 599, &req, Severity::Fatal);
    assert_eq!(r.body.error.code, "SOMETHING_ODD");
    assert_eq!(r.status, 599);
    match r.telemetry.expect("telemetry expected") {
        TelemetryEvent::Grouped { severity, .. } => assert_eq!(severity, Severity::Fatal),
        TelemetryEvent::Correlated { .. } => panic!("expected a grouped event"),
    }
}
