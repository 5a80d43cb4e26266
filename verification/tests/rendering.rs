use std::collections::HashSet;

use wings::envelope::{ErrorObject, ErrorResponse};
use wings::ids::new_id;
use wings::json::{json_escape, to_json};
use wings::text::{str_ends_with, u16_dec};

fn response(code: &str, status: u16, request_id: &str) -> ErrorResponse {
    ErrorResponse {
        error: ErrorObject { code: code.to_owned(), status },
        request_id: request_id.to_owned(),
    }
}

#[test]
fn json_body_has_exact_shape() {
    let r = response("NOT_FOUND", 404, "01ARZ3NDEKTSV4RRFFQ69G5FAV");
    assert_eq!(
        to_json(&r),
        "{\"error\":{\"code\":\"NOT_FOUND\",\"status\":404},\"request_id\":\"01ARZ3NDEKTSV4RRFFQ69G5FAV\"}"
    );
}

#[test]
fn json_body_parses_and_round_trips() {
    let r = response("CUSTOM_CONFLICT", 409, "id-1");
    let v: serde_json::Value = serde_json::from_str(&to_json(&r)).expect("valid JSON");
    assert_eq!(v["error"]["code"], "CUSTOM_CONFLICT");
    assert_eq!(v["error"]["status"], 409);
    assert_eq!(v["request_id"], "id-1");
}

#[test]
fn json_escaping_handles_quotes_backslashes_and_controls() {
    assert_eq!(json_escape("plain"), "plain");
    assert_eq!(json_escape("a\"b"), "a\\\"b");
    assert_eq!(json_escape("a\\b"), "a\\\\b");
    assert_eq!(json_escape("a\nb"), "a\\u000Ab");
    assert_eq!(json_escape("\u{1}"), "\\u0001");
    assert_eq!(json_escape("\u{1F}"), "\\u001F");
    assert_eq!(json_escape(""), "");

    let odd = response("A\"B\\C\nD", 400, "x\u{7}y");
    let v: serde_json::Value = serde_json::from_str(&to_json(&odd)).expect("valid JSON");
    assert_eq!(v["error"]["code"], "A\"B\\C\nD");
    assert_eq!(v["request_id"], "x\u{7}y");
}

#[test]
fn decimal_rendering_is_exact() {
    assert_eq!(u16_dec(0), "0");
    assert_eq!(u16_dec(7), "7");
    assert_eq!(u16_dec(404), "404");
    assert_eq!(u16_dec(10000), "10000");
    assert_eq!(u16_dec(65535), "65535");
}

#[test]
fn suffix_test_is_exact() {
    assert!(str_ends_with("/favicon.ico", "/favicon.ico"));
    assert!(str_ends_with("/static/favicon.ico", "/favicon.ico"));
    assert!(!str_ends_with("/favicon.ico/x", "/favicon.ico"));
    assert!(!str_ends_with("ico", "/favicon.ico"));
    assert!(str_ends_with("anything", ""));
}

#[test]
fn request_ids_are_nonempty_and_distinct() {
    let mut seen: HashSet<String> = HashSet::new();
    for _ in 0..10_000 {
        let id = new_id();
        assert_eq!(id.len(), 26);
        assert!(!id.is_empty());
        assert!(seen.insert(id), "request id repeated");
    }
}
