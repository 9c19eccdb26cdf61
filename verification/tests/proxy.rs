//! What goes to an upstream and what comes back.

use axum::http::{HeaderMap, HeaderName, HeaderValue};
use bge_router::handler::proxy::{admit_body, request_target, Refusal, MAX_BODY_BYTES};
use bge_router::router::proxy::{
    forward_lines, is_hop_by_hop, relay_lines, relayed_status, request_headers, request_url,
    response_headers,
};
use bge_router::upstream::snapshot::{PoolType, UpstreamScheme};

fn line(name: &str, value: &str) -> (HeaderName, HeaderValue) {
    (
        HeaderName::from_lowercase(name.as_bytes()).unwrap(),
        HeaderValue::from_str(value).unwrap(),
    )
}

fn values<'a>(lines: &'a [(HeaderName, HeaderValue)], name: &str) -> Vec<&'a [u8]> {
    lines
        .iter()
        .filter(|l| l.0 == name)
        .map(|l| l.1.as_bytes())
        .collect()
}

fn held<'a>(headers: &'a HeaderMap, name: &str) -> Vec<&'a [u8]> {
    headers
        .get_all(name)
        .iter()
        .map(|value| value.as_bytes())
        .collect()
}

#[test]
fn hop_by_hop_names() {
    let hops = [
        "connection",
        "keep-alive",
        "proxy-authenticate",
        "proxy-authorization",
        "te",
        "trailer",
        "transfer-encoding",
        "upgrade",
    ];
    for name in hops {
        assert!(is_hop_by_hop(name), "{name}");
    }
    for name in ["host", "content-length", "trailers", "Connection", ""] {
        assert!(!is_hop_by_hop(name), "{name}");
    }
}

#[test]
fn request_url_follows_scheme() {
    assert_eq!(
        request_url(UpstreamScheme::Http, "10.0.0.1:8081", "/v1/embeddings?a=b"),
        "http://10.0.0.1:8081/v1/embeddings?a=b"
    );
    assert_eq!(
        request_url(UpstreamScheme::Https, "[::1]:8081", "/"),
        "https://[::1]:8081/"
    );
}

#[test]
fn status_is_relayed() {
    for status in [100, 200, 404, 500, 999] {
        assert_eq!(relayed_status(status), status);
    }
    assert_eq!(relayed_status(99), 500);
    assert_eq!(relayed_status(1000), 500);
}

#[test]
fn request_headers_lose_hop_by_hop_only() {
    let mut headers = HeaderMap::new();
    headers.append("host", HeaderValue::from_static("router"));
    headers.append("te", HeaderValue::from_static("trailers"));
    headers.append("accept", HeaderValue::from_static("text/plain"));
    headers.append("accept", HeaderValue::from_bytes(b"\xff").unwrap());
    headers.append("connection", HeaderValue::from_static("close"));
    let sent = request_headers(&headers);
    assert_eq!(sent.len(), 3);
    assert_eq!(values(&sent, "host"), [b"router"]);
    assert_eq!(values(&sent, "accept"), [b"text/plain".as_slice(), b"\xff"]);
    assert!(values(&sent, "te").is_empty());
}

#[test]
fn forwarded_lines_keep_their_order() {
    let lines = [
        line("b", "1"),
        line("upgrade", "h2c"),
        line("a", "2"),
        line("b", "3"),
    ];
    let sent = forward_lines(&lines);
    assert_eq!(sent, [line("b", "1"), line("a", "2"), line("b", "3")]);
}

#[test]
fn response_names_upstream_and_pool() {
    let mut headers = HeaderMap::new();
    headers.append("content-type", HeaderValue::from_static("application/json"));
    headers.append("transfer-encoding", HeaderValue::from_static("chunked"));
    headers.append("x-bge-router-pool", HeaderValue::from_static("forged"));
    let relayed = response_headers(&headers, "10.0.0.1:8081", PoolType::Gpu).unwrap();
    assert_eq!(relayed.len(), 3);
    assert_eq!(held(&relayed, "content-type"), [b"application/json"]);
    assert_eq!(held(&relayed, "x-bge-router-upstream"), [b"10.0.0.1:8081"]);
    assert_eq!(held(&relayed, "x-bge-router-pool"), [b"gpu"]);
}

#[test]
fn last_value_of_a_response_header_is_relayed() {
    let name = HeaderName::from_static("set-cookie");
    let mut headers = HeaderMap::new();
    headers.append(name.clone(), HeaderValue::from_static("a=1"));
    headers.append(name, HeaderValue::from_static("b=2"));
    let relayed = response_headers(&headers, "h:1", PoolType::Cpu).unwrap();
    assert_eq!(held(&relayed, "set-cookie"), [b"b=2"]);
    assert_eq!(held(&relayed, "x-bge-router-pool"), [b"cpu"]);
}

#[test]
fn address_that_fits_no_header_is_left_out() {
    let relayed = relay_lines(&[], "10.0.0.1\n", PoolType::Cpu).unwrap();
    assert!(held(&relayed, "x-bge-router-upstream").is_empty());
    assert_eq!(held(&relayed, "x-bge-router-pool"), [b"cpu"]);
    assert_eq!(relayed.len(), 1);
}

#[test]
fn every_character_of_a_lowercase_name_passes() {
    let name = "abcdefghijklmnopqrstuvwxyz0123456789!\"#$%&'*+-.^_`|~";
    let sent = forward_lines(&[line(name, "v")]);
    assert_eq!(sent, [line(name, "v")]);
    let relayed = relay_lines(&[line(name, "v")], "h:1", PoolType::Gpu).unwrap();
    assert!(relayed.iter().any(|(n, v)| n.as_str() == name && v == "v"));
}

#[test]
fn sensitive_values_stay_sensitive() {
    let mut value = HeaderValue::from_static("secret");
    value.set_sensitive(true);
    let lines = [(HeaderName::from_static("x-token"), value)];
    assert!(forward_lines(&lines)[0].1.is_sensitive());
    let relayed = relay_lines(&lines, "h:1", PoolType::Gpu).unwrap();
    assert!(relayed["x-token"].is_sensitive());
}

#[test]
fn there_is_room_for_thousands_of_headers() {
    let many = |count: usize| -> Vec<(HeaderName, HeaderValue)> {
        (0..count).map(|n| line(&format!("h{n}"), "v")).collect()
    };
    let relayed = relay_lines(&many(6_552), "h:1", PoolType::Gpu).unwrap();
    assert_eq!(relayed.len(), 6_554);
    assert!(relay_lines(&many(40_000), "h:1", PoolType::Gpu).is_none());
}

#[test]
fn body_up_to_the_limit_is_admitted() {
    assert_eq!(MAX_BODY_BYTES, 32 * 1024 * 1024);
    assert_eq!(admit_body(Some(0)), Ok(0));
    assert_eq!(admit_body(Some(MAX_BODY_BYTES)), Ok(MAX_BODY_BYTES));
    let refusal = Refusal {
        status: 400,
        message: "failed to read request body",
    };
    assert_eq!(admit_body(Some(MAX_BODY_BYTES + 1)), Err(refusal));
    assert_eq!(admit_body(None), Err(refusal));
}

#[test]
fn request_target_prefers_path_and_query() {
    assert_eq!(request_target(Some("/a?b"), "/a"), "/a?b");
    assert_eq!(request_target(None, "/a"), "/a");
}

#[test]
fn redirect_is_relayed_with_its_location() {
    let mut headers = HeaderMap::new();
    headers.append("location", HeaderValue::from_static("/elsewhere"));
    for status in [301, 302, 303, 307, 308] {
        assert_eq!(relayed_status(status), status);
    }
    let relayed = response_headers(&headers, "h:1", PoolType::Gpu).unwrap();
    assert_eq!(held(&relayed, "location"), [b"/elsewhere"]);
}

#[test]
fn names_and_values_that_were_not_looked_at_pass() {
    // A bare string of more than 64 characters goes into the map unseen, and
    // its name makes a value.
    let mut headers = HeaderMap::new();
    headers.insert(
        "a-name-of-more-than-sixty-four-characters-with a blank-in-its-middle-part",
        HeaderValue::from_static("v"),
    );
    let name = headers.keys().next().unwrap().clone();
    assert!(name.as_str().contains('\0'));
    headers.insert("y", HeaderValue::from(name.clone()));
    let relayed = response_headers(&headers, "h:1", PoolType::Gpu).unwrap();
    assert_eq!(relayed.len(), 4);
    assert!(relayed.iter().any(|(n, v)| *n == name && v == "v"));
    assert_eq!(held(&relayed, "y"), [name.as_str().as_bytes()]);
    assert_eq!(request_headers(&headers).len(), 2);
}
