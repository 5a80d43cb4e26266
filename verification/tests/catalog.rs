use wings::catalog::{lookup, Severity};

#[test]
fn lookup_matches_table() {
    let expect = vec![
        (400u16, "BAD_REQUEST", Severity::Warning),
        (401, "UNAUTHORIZED", Severity::Warning),
        (403, "FORBIDDEN", Severity::Warning),
        (404, "NOT_FOUND", Severity::Error),
        (405, "METHOD_NOT_ALLOWED", Severity::Warning),
        (406, "NOT_ACCEPTABLE", Severity::Warning),
        (422, "UNPROCESSABLE_ENTITY", Severity::Warning),
        (429, "TOO_MANY_REQUESTS", Severity::Warning),
        (500, "INTERNAL_ERROR", Severity::Fatal),
        (503, "SERVICE_UNAVAILABLE", Severity::Error),
    ];
    for (status, code, severity) in expect {
        let (c, s) = lookup(status);
        assert_eq!(c, code);
        assert_eq!(s, severity);
    }
}

#[test]
fn severity_is_ordered() {
    assert!(Severity::Warning < Severity::Error);
    assert!(Severity::Error < Severity::Fatal);
}

#[test]
fn lookup_default_for_unmapped() {
    for status in [0u16, 100, 200, 302, 418, 502, 504, 599, 65535] {
        let (c, s) = lookup(status);
        assert_eq!(c, "UNKNOWN_ERROR");
        assert_eq!(s, Severity::Error);
    }
}
