//! `X-*` headers.

use axum::http::{header, HeaderMap, HeaderName, HeaderValue};
use bge_router::headers::{collect_lines, collect_x_headers, XHeaders};

fn line(name: &'static str, value: &'static str) -> (HeaderName, HeaderValue) {
    (
        HeaderName::from_static(name),
        HeaderValue::from_static(value),
    )
}

#[test]
fn collects_x_prefix_headers_and_skips_standard() {
    let mut headers = HeaderMap::new();
    headers.insert(
        HeaderName::from_static("x-foo"),
        HeaderValue::from_static("bar"),
    );
    headers.insert(
        header::CONTENT_TYPE,
        HeaderValue::from_static("application/json"),
    );

    let result = collect_x_headers(&headers);
    assert!(!result.is_empty());
    assert_eq!(result.get("x-foo"), Some("bar"));
    assert_eq!(result.len(), 1, "content-type must be excluded");
}

#[test]
fn empty_headers_produces_empty_xheaders() {
    let result = collect_x_headers(&HeaderMap::new());
    assert!(result.is_empty());
}

#[test]
fn headers_with_no_x_prefix_produces_empty_xheaders() {
    let mut headers = HeaderMap::new();
    headers.insert(header::CONTENT_TYPE, HeaderValue::from_static("text/plain"));
    headers.insert(
        header::AUTHORIZATION,
        HeaderValue::from_static("Bearer tok"),
    );
    let result = collect_x_headers(&headers);
    assert!(result.is_empty());
}

#[test]
fn display_produces_compact_json_object() {
    let mut headers = HeaderMap::new();
    headers.insert(
        HeaderName::from_static("x-project"),
        HeaderValue::from_static("my-proj"),
    );
    headers.insert(
        HeaderName::from_static("x-request-id"),
        HeaderValue::from_static("abc123"),
    );
    let xh = collect_x_headers(&headers);
    // Dictionary order: x-project < x-request-id
    assert_eq!(
        xh.to_json(),
        r#"{"x-project":"my-proj","x-request-id":"abc123"}"#
    );
}

#[test]
fn empty_xheaders_displays_as_empty_json_object() {
    let xh = XHeaders::default();
    assert_eq!(xh.to_json(), "{}");
}

#[test]
fn names_come_out_sorted_whatever_their_order() {
    let mut headers = HeaderMap::new();
    for name in ["x-c", "x-a", "x-b", "x-", "x-aa"] {
        headers.insert(
            HeaderName::from_static(name),
            HeaderValue::from_static("v"),
        );
    }
    assert_eq!(
        collect_x_headers(&headers).to_json(),
        r#"{"x-":"v","x-a":"v","x-aa":"v","x-b":"v","x-c":"v"}"#
    );
}

#[test]
fn last_readable_value_counts() {
    let name = HeaderName::from_static("x-many");
    let mut headers = HeaderMap::new();
    headers.append(name.clone(), HeaderValue::from_static("first"));
    headers.append(name.clone(), HeaderValue::from_static("second"));
    headers.append(name, HeaderValue::from_bytes(b"\xff\xfe").unwrap());
    let result = collect_x_headers(&headers);
    assert_eq!(result.len(), 1);
    assert_eq!(result.get("x-many"), Some("second"));
}

#[test]
fn unreadable_values_are_skipped() {
    let mut headers = HeaderMap::new();
    // A byte that starts no character, a cut-off character, an overlong one.
    for (name, value) in [
        ("x-stray", b"caf\xe9".as_slice()),
        ("x-cut", b"caf\xc3"),
        ("x-overlong", b"\xc0\xaf"),
    ] {
        headers.insert(name, HeaderValue::from_bytes(value).unwrap());
    }
    headers.insert(
        HeaderName::from_static("x-tabbed"),
        HeaderValue::from_static("a\tb"),
    );
    let result = collect_x_headers(&headers);
    assert_eq!(result.len(), 1);
    assert_eq!(result.get("x-stray"), None);
    assert_eq!(result.get("x-tabbed"), Some("a\tb"));
    assert_eq!(result.to_json(), r#"{"x-tabbed":"a\tb"}"#);
}

#[test]
fn values_are_read_as_utf8() {
    let mut headers = HeaderMap::new();
    headers.insert(
        HeaderName::from_static("x-a"),
        HeaderValue::from_bytes(b"\xc3\xa9").unwrap(),
    );
    headers.insert(
        HeaderName::from_static("x-name"),
        HeaderValue::from_bytes("żółw 🐢".as_bytes()).unwrap(),
    );
    let result = collect_x_headers(&headers);
    assert_eq!(result.get("x-a"), Some("é"));
    assert_eq!(result.get("x-name"), Some("żółw 🐢"));
    assert_eq!(result.to_json(), r#"{"x-a":"é","x-name":"żółw 🐢"}"#);
}

#[test]
fn json_escapes_quotes_and_backslashes() {
    let mut headers = HeaderMap::new();
    headers.insert(
        HeaderName::from_static("x-quoted"),
        HeaderValue::from_static(r#"say "hi" \o/"#),
    );
    assert_eq!(
        collect_x_headers(&headers).to_json(),
        r#"{"x-quoted":"say \"hi\" \\o/"}"#
    );
}

#[test]
fn log_field_is_absent_without_headers() {
    assert_eq!(XHeaders::default().log_field(), None);
    let lines = [line("x-one", "1")];
    assert_eq!(
        collect_lines(&lines).log_field().as_deref(),
        Some(r#"{"x-one":"1"}"#)
    );
}

#[test]
fn lines_are_collected_like_headers() {
    let lines = [
        line("x-b", "2"),
        line("accept", "*/*"),
        line("x-a", "1"),
        line("x-b", "3"),
        line("x", "short"),
    ];
    let result = collect_lines(&lines);
    assert_eq!(result.len(), 2);
    assert_eq!(result.get("x-a"), Some("1"));
    assert_eq!(result.get("x-b"), Some("3"));
    assert_eq!(result.get("x"), None);
    assert_eq!(result.get("accept"), None);
}

#[test]
fn names_are_lowercase_however_they_came() {
    let mut headers = HeaderMap::new();
    headers.insert(
        HeaderName::from_bytes(b"X-Request-ID").unwrap(),
        HeaderValue::from_static("abc"),
    );
    let result = collect_x_headers(&headers);
    assert_eq!(result.get("x-request-id"), Some("abc"));
    assert_eq!(result.get("X-Request-ID"), None);
}
