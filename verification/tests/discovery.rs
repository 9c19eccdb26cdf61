//! What DNS lookups do to the pools, and when the next one is due.

use std::time::Instant;

use bge_router::router::policy::pick;
use bge_router::time::Duration;
use bge_router::upstream::discovery::{
    compute_next_interval, describe_resolve, initial_retry_interval, lookup_host, merge, merge_at,
    merge_pool, merge_pool_at, refresh, Discovery, ResolveResult, Transition, UPSTREAM_PORT,
};
use bge_router::upstream::shared::SharedPool;
use bge_router::upstream::snapshot::{PoolSnapshot, PoolType, UpstreamInfo, UpstreamStatus};

fn addr(s: &str) -> String {
    s.to_string()
}

fn upstream(s: &str, status: UpstreamStatus, queue_depth: u32) -> UpstreamInfo {
    UpstreamInfo {
        addr: addr(s),
        pool_type: PoolType::Gpu,
        status,
        queue_depth,
        live_workers: 4,
        last_seen: Instant::now(),
    }
}

// ── merge_pool: ResolveResult::Failed preserves last-known-good ────────────

#[test]
fn merge_pool_failed_preserves_existing_pool() {
    let existing = vec![
        upstream("10.0.0.1:8081", UpstreamStatus::Healthy, 3),
        upstream("10.0.0.2:8081", UpstreamStatus::Healthy, 1),
    ];
    let result = merge_pool(&existing, &ResolveResult::Failed, PoolType::Gpu);
    assert_eq!(result.len(), 2);
    assert_eq!(result[0].addr, addr("10.0.0.1:8081"));
    assert_eq!(result[0].status, UpstreamStatus::Healthy);
    assert_eq!(result[0].queue_depth, 3);
    assert_eq!(result[1].addr, addr("10.0.0.2:8081"));
}

#[test]
fn merge_pool_failed_on_empty_existing_stays_empty() {
    let result = merge_pool(&[], &ResolveResult::Failed, PoolType::Gpu);
    assert!(result.is_empty());
}

// ── merge_pool: ResolveResult::Resolved(empty) clears the pool ─────────────

#[test]
fn merge_pool_resolved_empty_clears_existing_pool() {
    let existing = vec![upstream("10.0.0.1:8081", UpstreamStatus::Healthy, 0)];
    let result = merge_pool(&existing, &ResolveResult::Resolved(vec![]), PoolType::Gpu);
    assert!(result.is_empty());
}

// ── merge_pool: ResolveResult::Resolved(some) ──────────────────────────────

#[test]
fn merge_pool_resolved_preserves_health_for_existing_addresses() {
    let existing = vec![upstream("10.0.0.1:8081", UpstreamStatus::Healthy, 5)];
    let result = merge_pool(
        &existing,
        &ResolveResult::Resolved(vec![addr("10.0.0.1:8081")]),
        PoolType::Gpu,
    );
    assert_eq!(result.len(), 1);
    assert_eq!(result[0].status, UpstreamStatus::Healthy);
    assert_eq!(result[0].queue_depth, 5);
}

#[test]
fn merge_pool_resolved_adds_new_addresses_as_unknown() {
    let result = merge_pool(
        &[],
        &ResolveResult::Resolved(vec![addr("10.0.0.5:8081")]),
        PoolType::Cpu,
    );
    assert_eq!(result.len(), 1);
    assert_eq!(result[0].status, UpstreamStatus::Unknown);
    assert_eq!(result[0].pool_type, PoolType::Cpu);
}

#[test]
fn merge_pool_resolved_drops_disappeared_addresses() {
    let existing = vec![
        upstream("10.0.0.1:8081", UpstreamStatus::Healthy, 0),
        upstream("10.0.0.2:8081", UpstreamStatus::Healthy, 0),
    ];
    let result = merge_pool(
        &existing,
        &ResolveResult::Resolved(vec![addr("10.0.0.1:8081")]),
        PoolType::Gpu,
    );
    assert_eq!(result.len(), 1);
    assert_eq!(result[0].addr, addr("10.0.0.1:8081"));
}

#[test]
fn merged_addresses_come_in_lookup_order() {
    let stamp = Instant::now();
    let existing = vec![
        upstream("10.0.0.1:8081", UpstreamStatus::Healthy, 7),
        upstream("10.0.0.2:8081", UpstreamStatus::Loading, 1),
    ];
    let lookup = ResolveResult::Resolved(vec![
        addr("10.0.0.3:8081"),
        addr("10.0.0.2:8081"),
        addr("10.0.0.1:8081"),
    ]);
    let merged = merge_pool_at(&existing, &lookup, PoolType::Gpu, stamp);
    let order: Vec<&str> = merged.iter().map(|u| u.addr.as_str()).collect();
    assert_eq!(order, ["10.0.0.3:8081", "10.0.0.2:8081", "10.0.0.1:8081"]);
    assert_eq!(merged[0].last_seen, stamp);
    assert_eq!(merged[0].live_workers, 0);
    assert_eq!(merged[1].status, UpstreamStatus::Loading);
    assert_eq!(merged[1].last_seen, existing[1].last_seen);
    assert_eq!(merged[2].queue_depth, 7);
}

#[test]
fn merging_twice_is_merging_once() {
    let stamp = Instant::now();
    let existing = vec![upstream("10.0.0.1:8081", UpstreamStatus::Fail, 2)];
    let lookup = ResolveResult::Resolved(vec![addr("10.0.0.1:8081"), addr("10.0.0.2:8081")]);
    let once = merge_pool_at(&existing, &lookup, PoolType::Gpu, stamp);
    let twice = merge_pool_at(&once, &lookup, PoolType::Gpu, Instant::now());
    assert_eq!(once.len(), twice.len());
    for (a, b) in once.iter().zip(&twice) {
        assert_eq!(a.addr, b.addr);
        assert_eq!(a.status, b.status);
        assert_eq!(a.queue_depth, b.queue_depth);
        assert_eq!(a.last_seen, b.last_seen);
    }
}

// ── merge and refresh ──────────────────────────────────────────────────────

#[test]
fn merge_treats_pools_separately() {
    let stamp = Instant::now();
    let current = PoolSnapshot {
        gpu: vec![upstream("10.0.0.1:8081", UpstreamStatus::Healthy, 4)],
        cpu: vec![],
        updated_at: stamp,
    };
    let cpu_lookup = ResolveResult::Resolved(vec![addr("10.0.1.1:8081")]);
    let next = merge_at(&current, &ResolveResult::Failed, &cpu_lookup, stamp);
    assert_eq!(next.gpu.len(), 1);
    assert_eq!(next.gpu[0].queue_depth, 4);
    assert_eq!(next.cpu.len(), 1);
    assert_eq!(next.cpu[0].pool_type, PoolType::Cpu);
    assert_eq!(next.updated_at, stamp);
    let later = merge(&next, &ResolveResult::Resolved(vec![]), &cpu_lookup);
    assert!(later.gpu.is_empty());
    assert_eq!(later.cpu.len(), 1);
    assert!(later.updated_at >= stamp);
}

#[test]
fn refresh_replaces_the_shared_snapshot() {
    let pool = SharedPool::empty();
    assert!(pool.current().gpu.is_empty());
    assert!(pool.current().cpu.is_empty());
    let gpu = ResolveResult::Resolved(vec![addr("10.0.0.1:8081")]);
    let cpu = ResolveResult::Resolved(vec![addr("10.0.1.1:8081"), addr("10.0.1.2:8081")]);
    let (before, after) = refresh(&pool, &gpu, &cpu);
    assert!(before.gpu.is_empty() && before.cpu.is_empty());
    assert_eq!(after.gpu.len(), 1);
    assert_eq!(after.cpu.len(), 2);
    let current = pool.current();
    assert!(std::sync::Arc::ptr_eq(&after, &current));
    assert_eq!(current.gpu[0].addr, "10.0.0.1:8081");
    assert_eq!(current.cpu[1].addr, "10.0.1.2:8081");
    // Discovered upstreams are not routable before they were polled.
    assert!(pick(&current).is_none());
}

// ── ResolveResult ──────────────────────────────────────────────────────────

#[test]
fn resolve_result_has_addrs_semantics() {
    assert!(!ResolveResult::Failed.has_addrs());
    assert!(!ResolveResult::Resolved(vec![]).has_addrs());
    assert!(ResolveResult::Resolved(vec![addr("10.0.0.1:8081")]).has_addrs());
}

#[test]
fn resolve_result_is_described_in_short() {
    assert_eq!(describe_resolve(&ResolveResult::Failed), "failed");
    assert_eq!(describe_resolve(&ResolveResult::Resolved(vec![])), "ok(0)");
    let dozen: Vec<String> = (0..12).map(|n| format!("10.0.0.{n}:8081")).collect();
    assert_eq!(describe_resolve(&ResolveResult::Resolved(dozen)), "ok(12)");
}

#[test]
fn lookup_names_host_and_port() {
    assert_eq!(lookup_host("gpu.internal", UPSTREAM_PORT), "gpu.internal:8081");
    assert_eq!(lookup_host("", 0), ":0");
    assert_eq!(lookup_host("h", u16::MAX), "h:65535");
}

// ── compute_next_interval: state machine ───────────────────────────────────

fn max() -> Duration {
    Duration::from_secs(30)
}

#[test]
fn next_interval_healthy_returns_max() {
    assert_eq!(compute_next_interval(Duration::zero(), true, true, max()), max());
    assert_eq!(compute_next_interval(Duration::zero(), false, true, max()), max());
    assert_eq!(compute_next_interval(max(), false, true, max()), max());
}

#[test]
fn next_interval_transition_to_unhealthy_uses_initial() {
    let next = compute_next_interval(max(), true, false, max());
    assert_eq!(next, initial_retry_interval());
}

#[test]
fn next_interval_continuing_unhealthy_doubles() {
    let mut sleep = initial_retry_interval();
    sleep = compute_next_interval(sleep, false, false, max());
    assert_eq!(sleep, Duration::from_secs(4));
    sleep = compute_next_interval(sleep, false, false, max());
    assert_eq!(sleep, Duration::from_secs(8));
    sleep = compute_next_interval(sleep, false, false, max());
    assert_eq!(sleep, Duration::from_secs(16));
    sleep = compute_next_interval(sleep, false, false, max());
    // Capped at the maximum (30s), not 32s.
    assert_eq!(sleep, max());
    sleep = compute_next_interval(sleep, false, false, max());
    // Stays at the maximum once capped.
    assert_eq!(sleep, max());
}

#[test]
fn next_interval_cold_start_first_iteration() {
    let next = compute_next_interval(Duration::zero(), true, false, max());
    assert_eq!(next, initial_retry_interval());
}

#[test]
fn next_interval_handles_max_below_initial() {
    let tiny_max = Duration::from_secs(1);
    let next = compute_next_interval(Duration::zero(), true, false, tiny_max);
    assert!(next <= tiny_max);
    let next = compute_next_interval(tiny_max, false, false, tiny_max);
    assert_eq!(next, tiny_max);
}

#[test]
fn next_interval_re_failure_after_recovery_resets_to_initial() {
    let healthy = compute_next_interval(max(), false, true, max());
    assert_eq!(healthy, max());
    let re_failed = compute_next_interval(healthy, true, false, max());
    assert_eq!(re_failed, initial_retry_interval());
}

#[test]
fn initial_retry_is_two_seconds() {
    assert_eq!(initial_retry_interval(), Duration::from_secs(2));
}

#[test]
fn doubling_the_longest_wait_saturates() {
    let longest = Duration::from_secs(u64::MAX);
    assert_eq!(
        compute_next_interval(longest, false, false, longest),
        longest
    );
}

// ── Discovery ──────────────────────────────────────────────────────────────

#[test]
fn discovery_waits_through_an_outage_and_recovers() {
    let populated = ResolveResult::Resolved(vec![addr("10.0.0.1:8081")]);
    let empty = ResolveResult::Resolved(vec![]);
    let mut discovery = Discovery::new();
    assert!(discovery.sleep_for.is_zero());
    assert!(discovery.last_healthy);

    assert_eq!(
        discovery.observe(&populated, &empty, max()),
        Transition::Degraded
    );
    assert_eq!(discovery.sleep_for, Duration::from_secs(2));
    assert_eq!(
        discovery.observe(&ResolveResult::Failed, &populated, max()),
        Transition::Unchanged
    );
    assert_eq!(discovery.sleep_for, Duration::from_secs(4));
    assert_eq!(
        discovery.observe(&populated, &populated, max()),
        Transition::Recovered
    );
    assert_eq!(discovery.sleep_for, max());
    assert!(discovery.last_healthy);
    assert_eq!(
        discovery.observe(&populated, &populated, max()),
        Transition::Unchanged
    );
}

#[test]
fn cold_start_schedule() {
    let empty = ResolveResult::Resolved(vec![]);
    let mut discovery = Discovery::new();
    let mut waits = vec![discovery.sleep_for.as_secs()];
    for _ in 0..6 {
        discovery.observe(&empty, &ResolveResult::Failed, max());
        waits.push(discovery.sleep_for.as_secs());
    }
    assert_eq!(waits, [0, 2, 4, 8, 16, 30, 30]);
}
