//! Errors and what the client is told of them.

use bge_router::error::AppError;

fn bad_request_error() -> reqwest::Error {
    reqwest::Client::new()
        .get("not a url")
        .build()
        .expect_err("a request without a host cannot be built")
}

#[test]
fn no_upstream_available_display() {
    assert_eq!(
        AppError::NoUpstreamAvailable.message(),
        "no upstream available"
    );
}

#[test]
fn internal_error_display() {
    let err = AppError::Internal(anyhow::Error::msg("something broke"));
    assert!(err.message().contains("something broke"));
}

#[test]
fn internal_error_names_its_kind() {
    let err = AppError::Internal(anyhow::Error::msg("something broke"));
    assert_eq!(err.message(), "internal error: something broke");
}

#[test]
fn upstream_error_display() {
    let inner = bad_request_error();
    let shown = inner.to_string();
    let err = AppError::from(inner);
    assert!(matches!(err, AppError::Upstream(_)));
    assert_eq!(err.message(), format!("upstream error: {shown}"));
}

#[test]
fn no_upstream_available_produces_503() {
    assert_eq!(AppError::NoUpstreamAvailable.status_code(), 503);
}

#[test]
fn upstream_error_produces_502() {
    assert_eq!(AppError::from(bad_request_error()).status_code(), 502);
}

#[test]
fn internal_error_produces_500() {
    let err = AppError::Internal(anyhow::Error::msg("internal"));
    assert_eq!(err.status_code(), 500);
}

#[test]
fn from_anyhow_error_creates_internal_variant() {
    let anyhow_err = anyhow::Error::msg("wrapped");
    let app_err = AppError::from(anyhow_err);
    assert!(matches!(app_err, AppError::Internal(_)));
    assert!(app_err.message().contains("wrapped"));
}
