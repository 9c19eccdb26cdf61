//! What health polls do to the pools.

use std::time::Instant;

use bge_router::router::policy::pick;
use bge_router::upstream::discovery::{refresh, ResolveResult};
use bge_router::upstream::health::{
    apply_updates, apply_updates_at, health_url, is_success_status, poll_result, poll_targets,
    record_polls, update_pool, BgeMHealthResponse, HealthReply, PollResult, WorkersField,
};
use bge_router::upstream::shared::SharedPool;
use bge_router::upstream::snapshot::{
    PoolSnapshot, PoolType, UpstreamInfo, UpstreamScheme, UpstreamStatus,
};

fn unknown_gpu(addr: &str) -> UpstreamInfo {
    UpstreamInfo {
        addr: addr.to_string(),
        pool_type: PoolType::Gpu,
        status: UpstreamStatus::Unknown,
        queue_depth: 0,
        live_workers: 0,
        last_seen: Instant::now(),
    }
}

/// Read a health response as the poller does: unknown fields are ignored.
fn parse(json: &str) -> Result<BgeMHealthResponse, String> {
    let value: serde_json::Value = serde_json::from_str(json).map_err(|e| e.to_string())?;
    let narrow = |number: &serde_json::Value| {
        number
            .as_u64()
            .and_then(|n| u32::try_from(n).ok())
            .ok_or("not a 32-bit number".to_string())
    };
    let status = value["status"]
        .as_str()
        .ok_or("status is missing".to_string())?;
    let workers = match value.get("workers") {
        Some(workers) => Some(WorkersField {
            live: narrow(&workers["live"])?,
        }),
        None => None,
    };
    let queue_depth = match value.get("queue_depth") {
        Some(depth) => Some(narrow(depth)?),
        None => None,
    };
    Ok(BgeMHealthResponse {
        status: status.to_string(),
        workers,
        queue_depth,
    })
}

fn answered(http_status: u16, json: &str) -> HealthReply {
    HealthReply::Answered {
        http_status,
        report: parse(json).ok(),
    }
}

// ── health response parsing ────────────────────────────────────────────────

#[test]
fn parse_ok_with_workers_and_queue_depth() {
    let json = r#"{"status":"ok","workers":{"live":8,"total":8},"queue_depth":3}"#;
    let resp = parse(json).unwrap();
    assert_eq!(UpstreamStatus::parse(&resp.status), UpstreamStatus::Healthy);
    assert_eq!(resp.workers.unwrap().live, 8);
    assert_eq!(resp.queue_depth.unwrap(), 3);
}

#[test]
fn parse_loading_gives_loading_status_and_zero_defaults() {
    let json = r#"{"status":"loading"}"#;
    let resp = parse(json).unwrap();
    assert_eq!(UpstreamStatus::parse(&resp.status), UpstreamStatus::Loading);
    assert_eq!(resp.queue_depth.unwrap_or(0), 0);
    assert_eq!(resp.workers.map_or(0, |w| w.live), 0);
}

#[test]
fn parse_fail_gives_fail_status() {
    let json = r#"{"status":"fail"}"#;
    let resp = parse(json).unwrap();
    assert_eq!(UpstreamStatus::parse(&resp.status), UpstreamStatus::Fail);
}

#[test]
fn parse_idle_is_treated_as_loading() {
    let json = r#"{"status":"idle"}"#;
    let resp = parse(json).unwrap();
    assert_eq!(UpstreamStatus::parse(&resp.status), UpstreamStatus::Loading);
}

#[test]
fn parse_warn_is_treated_as_ok() {
    let json = r#"{"status":"warn","workers":{"live":3,"total":8}}"#;
    let resp = parse(json).unwrap();
    assert_eq!(UpstreamStatus::parse(&resp.status), UpstreamStatus::Healthy);
    assert_eq!(resp.workers.unwrap().live, 3);
}

#[test]
fn parse_unknown_status_string_gives_unknown() {
    let json = r#"{"status":"something_else"}"#;
    let resp = parse(json).unwrap();
    assert_eq!(UpstreamStatus::parse(&resp.status), UpstreamStatus::Unknown);
}

#[test]
fn parse_invalid_json_returns_error() {
    let result = parse("not valid json");
    assert!(result.is_err(), "invalid JSON should fail deserialization");
    // A successful answer that cannot be read leaves the upstream unknown.
    let reply = HealthReply::Answered {
        http_status: 200,
        report: result.ok(),
    };
    let polled = poll_result("10.0.0.1:8081".to_string(), reply);
    assert_eq!(polled.status, UpstreamStatus::Unknown);
    assert!(polled.succeeded);
}

#[test]
fn parse_ok_without_workers_field_gives_zero_live_workers() {
    let json = r#"{"status":"ok"}"#;
    let resp = parse(json).unwrap();
    assert_eq!(UpstreamStatus::parse(&resp.status), UpstreamStatus::Healthy);
    assert_eq!(resp.workers.map_or(0, |w| w.live), 0);
    assert_eq!(resp.queue_depth.unwrap_or(0), 0);
}

// ── one poll ───────────────────────────────────────────────────────────────

#[test]
fn health_url_names_scheme_and_address() {
    assert_eq!(
        health_url(UpstreamScheme::Http, "10.0.0.1:8081"),
        "http://10.0.0.1:8081/health"
    );
    assert_eq!(
        health_url(UpstreamScheme::Https, "[::1]:8081"),
        "https://[::1]:8081/health"
    );
}

#[test]
fn success_is_the_2xx_class() {
    for status in [200, 204, 299] {
        assert!(is_success_status(status), "{status}");
    }
    for status in [0, 199, 300, 404, 500, 503] {
        assert!(!is_success_status(status), "{status}");
    }
}

#[test]
fn readable_answer_is_taken_over() {
    let json = r#"{"status":"ok","workers":{"live":8,"total":8},"queue_depth":3}"#;
    let r = poll_result("10.0.0.1:8081".to_string(), answered(200, json));
    assert_eq!(r.addr, "10.0.0.1:8081");
    assert_eq!(r.status, UpstreamStatus::Healthy);
    assert_eq!(r.queue_depth, 3);
    assert_eq!(r.live_workers, 8);
    assert!(r.succeeded);
}

#[test]
fn unreadable_answer_is_unknown() {
    let r = poll_result("a".to_string(), answered(200, "not valid json"));
    assert_eq!(r.status, UpstreamStatus::Unknown);
    assert_eq!((r.queue_depth, r.live_workers), (0, 0));
    assert!(r.succeeded);
}

#[test]
fn error_answer_is_a_failure_whatever_it_says() {
    let json = r#"{"status":"ok","workers":{"live":8},"queue_depth":3}"#;
    let r = poll_result("a".to_string(), answered(503, json));
    assert_eq!(r.status, UpstreamStatus::Fail);
    assert_eq!((r.queue_depth, r.live_workers), (0, 0));
    assert!(!r.succeeded);
}

#[test]
fn unreachable_upstream_is_a_failure() {
    let r = poll_result("a".to_string(), HealthReply::Unreachable);
    assert_eq!(r.status, UpstreamStatus::Fail);
    assert_eq!((r.queue_depth, r.live_workers), (0, 0));
    assert!(!r.succeeded);
}

// ── apply_updates ──────────────────────────────────────────────────────────

#[test]
fn apply_updates_empty_pool_stays_empty() {
    let current = PoolSnapshot::default();
    let results: Vec<PollResult> = vec![];
    let updated = apply_updates(&current, &results);
    assert!(updated.gpu.is_empty());
    assert!(updated.cpu.is_empty());
}

#[test]
fn apply_updates_matching_result_overwrites_status_and_depth() {
    let current = PoolSnapshot {
        gpu: vec![unknown_gpu("10.0.0.1:8081")],
        cpu: vec![],
        updated_at: Instant::now(),
    };
    let results = vec![PollResult {
        addr: "10.0.0.1:8081".to_string(),
        status: UpstreamStatus::Healthy,
        queue_depth: 7,
        live_workers: 4,
        succeeded: true,
    }];
    let updated = apply_updates(&current, &results);
    assert_eq!(updated.gpu.len(), 1);
    assert_eq!(updated.gpu[0].status, UpstreamStatus::Healthy);
    assert_eq!(updated.gpu[0].queue_depth, 7);
    assert_eq!(updated.gpu[0].live_workers, 4);
}

#[test]
fn apply_updates_no_matching_result_leaves_upstream_unchanged() {
    let current = PoolSnapshot {
        gpu: vec![unknown_gpu("10.0.0.1:8081")],
        cpu: vec![],
        updated_at: Instant::now(),
    };
    let results = vec![PollResult {
        addr: "10.0.0.99:8081".to_string(),
        status: UpstreamStatus::Healthy,
        queue_depth: 0,
        live_workers: 0,
        succeeded: true,
    }];
    let updated = apply_updates(&current, &results);
    assert_eq!(updated.gpu.len(), 1);
    assert_eq!(
        updated.gpu[0].status,
        UpstreamStatus::Unknown,
        "unmatched upstream should keep its original status"
    );
}

#[test]
fn last_seen_moves_with_successful_polls_only() {
    let seen = Instant::now();
    let later = seen + std::time::Duration::from_secs(5);
    let mut upstream = unknown_gpu("a:1");
    upstream.last_seen = seen;
    let pool = vec![upstream];
    let good = [poll_result("a:1".to_string(), answered(200, r#"{"status":"ok"}"#))];
    let bad = [poll_result("a:1".to_string(), HealthReply::Unreachable)];
    assert_eq!(update_pool(&pool, &good, later)[0].last_seen, later);
    let failed = update_pool(&pool, &bad, later);
    assert_eq!(failed[0].last_seen, seen);
    assert_eq!(failed[0].status, UpstreamStatus::Fail);
}

#[test]
fn first_result_for_an_address_counts_and_twice_is_once() {
    let now = Instant::now();
    let current = PoolSnapshot {
        gpu: vec![unknown_gpu("a:1"), unknown_gpu("b:1")],
        cpu: vec![],
        updated_at: now,
    };
    let results = vec![
        poll_result("b:1".to_string(), answered(200, r#"{"status":"idle"}"#)),
        poll_result("b:1".to_string(), HealthReply::Unreachable),
    ];
    let once = apply_updates_at(&current, &results, now);
    let twice = apply_updates_at(&once, &results, now);
    for next in [&once, &twice] {
        assert_eq!(next.gpu.len(), 2);
        assert_eq!(next.gpu[0].addr, "a:1");
        assert_eq!(next.gpu[0].status, UpstreamStatus::Unknown);
        assert_eq!(next.gpu[1].addr, "b:1");
        assert_eq!(next.gpu[1].status, UpstreamStatus::Loading);
        assert_eq!(next.updated_at, now);
    }
}

// ── a whole round ──────────────────────────────────────────────────────────

#[test]
fn poll_targets_are_gpu_first() {
    let mut cpu = unknown_gpu("c:1");
    cpu.pool_type = PoolType::Cpu;
    let snapshot = PoolSnapshot {
        gpu: vec![unknown_gpu("a:1"), unknown_gpu("b:1")],
        cpu: vec![cpu],
        updated_at: Instant::now(),
    };
    assert_eq!(poll_targets(&snapshot), ["a:1", "b:1", "c:1"]);
    assert!(poll_targets(&PoolSnapshot::default()).is_empty());
}

#[test]
fn recorded_polls_open_and_close_routes() {
    let pool = SharedPool::empty();
    refresh(
        &pool,
        &ResolveResult::Resolved(vec!["10.0.0.1:8081".to_string()]),
        &ResolveResult::Resolved(vec![]),
    );
    let up = [poll_result(
        "10.0.0.1:8081".to_string(),
        answered(200, r#"{"status":"ok","workers":{"live":2}}"#),
    )];
    let (before, after) = record_polls(&pool, &up);
    assert!(std::sync::Arc::ptr_eq(&after, &pool.current()));
    assert!(pick(&before).is_none());
    assert_eq!(after.gpu[0].live_workers, 2);
    let expected = ("10.0.0.1:8081".to_string(), PoolType::Gpu);
    assert_eq!(pick(&pool.current()), Some(expected));

    let down = [poll_result("10.0.0.1:8081".to_string(), HealthReply::Unreachable)];
    record_polls(&pool, &down);
    assert!(pick(&pool.current()).is_none());
    assert_eq!(pool.current().gpu.len(), 1);
}

#[test]
fn departed_upstream_does_not_come_back() {
    let pool = SharedPool::empty();
    let late = [poll_result(
        "10.0.0.1:8081".to_string(),
        answered(200, r#"{"status":"ok"}"#),
    )];
    let (_, after) = record_polls(&pool, &late);
    assert!(after.gpu.is_empty() && after.cpu.is_empty());
}
