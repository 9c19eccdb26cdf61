//! Which upstream a request goes to.

use std::time::Instant;

use bge_router::router::policy::{pick, pick_cpu, pick_gpu};
use bge_router::upstream::snapshot::{PoolSnapshot, PoolType, UpstreamInfo, UpstreamStatus};

fn make_upstream(
    addr: &str,
    pool_type: PoolType,
    status: UpstreamStatus,
    depth: u32,
) -> UpstreamInfo {
    UpstreamInfo {
        addr: addr.to_string(),
        pool_type,
        status,
        queue_depth: depth,
        live_workers: 4,
        last_seen: Instant::now(),
    }
}

fn without_workers(mut upstream: UpstreamInfo) -> UpstreamInfo {
    upstream.live_workers = 0;
    upstream
}

fn snapshot(gpu: Vec<UpstreamInfo>, cpu: Vec<UpstreamInfo>) -> PoolSnapshot {
    PoolSnapshot {
        gpu,
        cpu,
        updated_at: Instant::now(),
    }
}

// ── empty pool ──────────────────────────────────────────────────────────────

#[test]
fn empty_snapshot_returns_none() {
    let snap = PoolSnapshot::default();
    assert!(pick(&snap).is_none());
    assert!(pick_gpu(&snap).is_none());
    assert!(pick_cpu(&snap).is_none());
}

// ── GPU-only pool ────────────────────────────────────────────────────────────

#[test]
fn single_ok_gpu_with_zero_depth_is_picked() {
    let gpu = make_upstream("10.0.0.1:8081", PoolType::Gpu, UpstreamStatus::Healthy, 0);
    let snap = snapshot(vec![gpu], vec![]);
    let (addr, pool) = pick(&snap).expect("should pick the GPU upstream");
    assert_eq!(addr, "10.0.0.1:8081");
    assert_eq!(pool, PoolType::Gpu);
}

#[test]
fn single_ok_gpu_with_nonzero_depth_is_still_picked() {
    let gpu = make_upstream("10.0.0.1:8081", PoolType::Gpu, UpstreamStatus::Healthy, 5);
    let snap = snapshot(vec![gpu], vec![]);
    let result = pick(&snap);
    assert!(
        result.is_some(),
        "Ok GPU with queue_depth=5 should still be picked"
    );
    assert_eq!(result.unwrap().1, PoolType::Gpu);
}

// ── CPU-only pool ────────────────────────────────────────────────────────────

#[test]
fn single_ok_cpu_is_picked_when_no_gpu_exists() {
    let cpu = make_upstream("10.0.1.1:8081", PoolType::Cpu, UpstreamStatus::Healthy, 0);
    let snap = snapshot(vec![], vec![cpu]);
    let (addr, pool) = pick(&snap).expect("should pick the CPU upstream");
    assert_eq!(addr, "10.0.1.1:8081");
    assert_eq!(pool, PoolType::Cpu);
}

// ── GPU preferred over CPU ────────────────────────────────────────────────────

#[test]
fn ok_gpu_beats_ok_cpu_with_same_depth() {
    let gpu = make_upstream("10.0.0.1:8081", PoolType::Gpu, UpstreamStatus::Healthy, 0);
    let cpu = make_upstream("10.0.1.1:8081", PoolType::Cpu, UpstreamStatus::Healthy, 0);
    let snap = snapshot(vec![gpu], vec![cpu]);
    let (_, pool) = pick(&snap).expect("should pick an upstream");
    assert_eq!(pool, PoolType::Gpu, "GPU should be preferred over CPU");
}

#[test]
fn ok_gpu_with_higher_depth_still_beats_ok_cpu_with_zero_depth() {
    let gpu = make_upstream("10.0.0.1:8081", PoolType::Gpu, UpstreamStatus::Healthy, 3);
    let cpu = make_upstream("10.0.1.1:8081", PoolType::Cpu, UpstreamStatus::Healthy, 0);
    let snap = snapshot(vec![gpu], vec![cpu]);
    let (_, pool) = pick(&snap).expect("should pick an upstream");
    assert_eq!(pool, PoolType::Gpu, "GPU should win even with higher depth");
}

// ── Fallback to CPU ────────────────────────────────────────────────────────────

#[test]
fn fail_gpu_falls_through_to_ok_cpu() {
    let gpu = make_upstream("10.0.0.1:8081", PoolType::Gpu, UpstreamStatus::Fail, 0);
    let cpu = make_upstream("10.0.1.1:8081", PoolType::Cpu, UpstreamStatus::Healthy, 0);
    let snap = snapshot(vec![gpu], vec![cpu]);
    let (_, pool) = pick(&snap).expect("should fall back to CPU");
    assert_eq!(
        pool,
        PoolType::Cpu,
        "Failed GPU should cause fallback to CPU"
    );
}

#[test]
fn loading_gpu_falls_through_to_ok_cpu() {
    let gpu = make_upstream("10.0.0.1:8081", PoolType::Gpu, UpstreamStatus::Loading, 0);
    let cpu = make_upstream("10.0.1.1:8081", PoolType::Cpu, UpstreamStatus::Healthy, 0);
    let snap = snapshot(vec![gpu], vec![cpu]);
    let (_, pool) = pick(&snap).expect("should fall back to CPU");
    assert_eq!(
        pool,
        PoolType::Cpu,
        "Loading GPU should cause fallback to CPU"
    );
}

#[test]
fn unknown_gpu_falls_through_to_ok_cpu() {
    let gpu = make_upstream("10.0.0.1:8081", PoolType::Gpu, UpstreamStatus::Unknown, 0);
    let cpu = make_upstream("10.0.1.1:8081", PoolType::Cpu, UpstreamStatus::Healthy, 2);
    let snap = snapshot(vec![gpu], vec![cpu]);
    let (_, pool) = pick(&snap).expect("should fall back to CPU");
    assert_eq!(pool, PoolType::Cpu);
}

// ── Tiebreaking by queue depth ─────────────────────────────────────────────────

#[test]
fn picks_lowest_depth_among_multiple_ok_gpus() {
    let gpu_busy = make_upstream("10.0.0.1:8081", PoolType::Gpu, UpstreamStatus::Healthy, 10);
    let gpu_idle = make_upstream("10.0.0.2:8081", PoolType::Gpu, UpstreamStatus::Healthy, 1);
    let gpu_med = make_upstream("10.0.0.3:8081", PoolType::Gpu, UpstreamStatus::Healthy, 5);
    let snap = snapshot(vec![gpu_busy, gpu_idle, gpu_med], vec![]);
    let (addr, pool) = pick(&snap).expect("should pick the least-busy GPU");
    assert_eq!(pool, PoolType::Gpu);
    assert_eq!(addr, "10.0.0.2:8081", "should pick depth=1");
}

#[test]
fn picks_lowest_depth_among_multiple_ok_cpus() {
    let cpu_busy = make_upstream("10.0.1.1:8081", PoolType::Cpu, UpstreamStatus::Healthy, 8);
    let cpu_idle = make_upstream("10.0.1.2:8081", PoolType::Cpu, UpstreamStatus::Healthy, 0);
    let cpu_med = make_upstream("10.0.1.3:8081", PoolType::Cpu, UpstreamStatus::Healthy, 4);
    let snap = snapshot(vec![], vec![cpu_busy, cpu_idle, cpu_med]);
    let (addr, pool) = pick(&snap).expect("should pick the least-busy CPU");
    assert_eq!(pool, PoolType::Cpu);
    assert_eq!(addr, "10.0.1.2:8081", "should pick depth=0");
}

#[test]
fn first_of_equal_depths_is_picked() {
    let gpu = |addr: &str| make_upstream(addr, PoolType::Gpu, UpstreamStatus::Healthy, 2);
    let snap = snapshot(vec![gpu("10.0.0.1:8081"), gpu("10.0.0.2:8081")], vec![]);
    assert_eq!(
        pick_gpu(&snap),
        Some(("10.0.0.1:8081".to_string(), PoolType::Gpu))
    );
}

// ── All unavailable ─────────────────────────────────────────────────────────────

#[test]
fn all_fail_returns_none() {
    let gpu = make_upstream("10.0.0.1:8081", PoolType::Gpu, UpstreamStatus::Fail, 0);
    let cpu = make_upstream("10.0.1.1:8081", PoolType::Cpu, UpstreamStatus::Fail, 0);
    let snap = snapshot(vec![gpu], vec![cpu]);
    assert!(pick(&snap).is_none());
}

#[test]
fn all_unknown_returns_none() {
    let gpu = make_upstream("10.0.0.1:8081", PoolType::Gpu, UpstreamStatus::Unknown, 0);
    let cpu = make_upstream("10.0.1.1:8081", PoolType::Cpu, UpstreamStatus::Unknown, 0);
    let snap = snapshot(vec![gpu], vec![cpu]);
    assert!(pick(&snap).is_none());
}

// ── Loading upstreams with live workers ─────────────────────────────────────────

#[test]
fn loading_with_workers_is_a_last_resort() {
    let gpu = make_upstream("10.0.0.1:8081", PoolType::Gpu, UpstreamStatus::Loading, 9);
    let cpu = make_upstream("10.0.1.1:8081", PoolType::Cpu, UpstreamStatus::Loading, 0);
    let snap = snapshot(vec![gpu.clone()], vec![cpu.clone()]);
    assert_eq!(pick(&snap).unwrap().1, PoolType::Gpu);
    let snap = snapshot(vec![without_workers(gpu.clone())], vec![cpu.clone()]);
    assert_eq!(pick(&snap).unwrap().1, PoolType::Cpu);
    let snap = snapshot(vec![without_workers(gpu)], vec![without_workers(cpu)]);
    assert!(pick(&snap).is_none());
}

#[test]
fn shortest_queue_among_loading_gpus_is_picked() {
    let loading = |addr: &str, depth: u32| {
        make_upstream(addr, PoolType::Gpu, UpstreamStatus::Loading, depth)
    };
    let snap = snapshot(
        vec![
            loading("10.0.0.1:8081", 3),
            without_workers(loading("10.0.0.2:8081", 0)),
            loading("10.0.0.3:8081", 1),
        ],
        vec![],
    );
    assert_eq!(pick_gpu(&snap).unwrap().0, "10.0.0.3:8081");
}

// ── pick_gpu / pick_cpu helpers ─────────────────────────────────────────────────

#[test]
fn pick_gpu_ignores_cpu_pool() {
    let cpu = make_upstream("10.0.1.1:8081", PoolType::Cpu, UpstreamStatus::Healthy, 0);
    let snap = snapshot(vec![], vec![cpu]);
    assert!(
        pick_gpu(&snap).is_none(),
        "pick_gpu should not look at cpu pool"
    );
}

#[test]
fn pick_cpu_ignores_gpu_pool() {
    let gpu = make_upstream("10.0.0.1:8081", PoolType::Gpu, UpstreamStatus::Healthy, 0);
    let snap = snapshot(vec![gpu], vec![]);
    assert!(
        pick_cpu(&snap).is_none(),
        "pick_cpu should not look at gpu pool"
    );
}
