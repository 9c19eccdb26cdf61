//! Which strategy a request path gets.

use bge_router::config::Config;
use bge_router::router::route_policy::{is_inference_path, RoutePolicy};
use bge_router::time::Duration;

fn cfg(hedge_ms: u64, ctl_ms: u64) -> Config {
    Config::from_lookup(|key: &str| match key {
        "BGE_ROUTER_HEDGE_DELAY_MS" => Some(hedge_ms.to_string()),
        "BGE_ROUTER_CONTROL_TIMEOUT_MS" => Some(ctl_ms.to_string()),
        _ => None,
    })
    .expect("config from_lookup must succeed")
}

#[test]
fn dense_embeddings_is_inference() {
    assert!(is_inference_path("/v1/embeddings"));
}

#[test]
fn sparse_embeddings_is_inference() {
    assert!(is_inference_path("/v1/sparse-embeddings"));
}

#[test]
fn embeddings_both_is_inference() {
    assert!(is_inference_path("/v1/embeddings:both"));
}

#[test]
fn query_string_does_not_break_inference_match() {
    assert!(is_inference_path("/v1/embeddings?model=bge-m3"));
}

#[test]
fn future_embeddings_variant_is_inference() {
    assert!(is_inference_path("/v1/colbert-embeddings"));
    assert!(is_inference_path("/v1/embeddings-v2"));
}

#[test]
fn health_is_control_plane() {
    assert!(!is_inference_path("/health"));
}

#[test]
fn router_health_is_control_plane() {
    assert!(!is_inference_path("/router/health"));
}

#[test]
fn models_is_control_plane() {
    assert!(!is_inference_path("/v1/models"));
}

#[test]
fn unknown_path_is_control_plane() {
    assert!(!is_inference_path("/foo/bar"));
    assert!(!is_inference_path("/"));
}

#[test]
fn query_alone_does_not_make_inference() {
    assert!(!is_inference_path("/v1/models?like=embeddings"));
    assert!(!is_inference_path("/v1?/embeddings"));
    assert!(!is_inference_path(""));
    assert!(!is_inference_path("/v2/embeddings"));
    assert!(!is_inference_path("x/v1/embeddings"));
    assert!(!is_inference_path("/v1/embedding"));
}

#[test]
fn for_path_hedges_inference_paths() {
    let c = cfg(2_000, 500);
    assert_eq!(
        RoutePolicy::for_path("/v1/embeddings", &c),
        RoutePolicy::Hedged {
            delay: Duration::from_secs(2)
        }
    );
}

#[test]
fn for_path_uses_sequential_for_control_plane() {
    let c = cfg(2_000, 500);
    assert_eq!(
        RoutePolicy::for_path("/health", &c),
        RoutePolicy::SequentialTimeout {
            per_upstream: Duration::from_millis(500)
        }
    );
    assert_eq!(
        RoutePolicy::for_path("/v1/models", &c),
        RoutePolicy::SequentialTimeout {
            per_upstream: Duration::from_millis(500)
        }
    );
}

#[test]
fn same_strategy_with_and_without_query() {
    let c = cfg(2_000, 500);
    for path in ["/v1/embeddings", "/v1/models", "/", ""] {
        for query in ["", "a=b", "embeddings", "?"] {
            assert_eq!(
                RoutePolicy::for_path(&format!("{path}?{query}"), &c),
                RoutePolicy::for_path(path, &c)
            );
        }
    }
}
