//! Router health endpoint (`GET /router/health`).
//!
//! The router's own view of the upstream pools: statuses, queue depths and
//! live worker counts of every discovered upstream.

use std::time::Instant;

use vstd::prelude::*;

use crate::config::Config;
use crate::error::AppError;
use crate::metrics;
use crate::metrics::count_healthy;
use crate::router::fallback;
use crate::router::fallback::Plan;
use crate::router::policy;
use crate::upstream::snapshot::{PoolSnapshot, PoolType, UpstreamInfo, UpstreamStatus};

verus! {

/// What the report says of one upstream.
#[derive(Debug)]
pub struct UpstreamView {
    /// Its address.
    pub addr: String,
    /// Its pool's name.
    pub pool_type: &'static str,
    /// Its status's name.
    pub status: &'static str,
    /// Its queue depth.
    pub queue_depth: u32,
    /// Its live workers.
    pub live_workers: u32,
    /// When it last answered a health poll.
    pub last_seen: Instant,
}

impl UpstreamView {
    /// This is what the report says of the upstream.
    pub open spec fn shows(self, info: UpstreamInfo) -> bool {
        &&& self.addr@ == info.addr@
        &&& self.pool_type@ == info.pool_type.label()
        &&& self.status@ == info.status.label()
        &&& self.queue_depth == info.queue_depth
        &&& self.live_workers == info.live_workers
        &&& self.last_seen == info.last_seen
    }

    /// Report on one upstream.
    pub fn from_info(info: &UpstreamInfo) -> (view: Self)
        ensures
            view.shows(*info),
    {
        UpstreamView {
            addr: info.addr.clone(),
            pool_type: info.pool_type.as_str(),
            status: info.status.as_str(),
            queue_depth: info.queue_depth,
            live_workers: info.live_workers,
            last_seen: info.last_seen,
        }
    }
}

/// What the report says of a pool: each upstream in turn.
pub open spec fn shows_pool(views: Seq<UpstreamView>, pool: Seq<UpstreamInfo>) -> bool {
    &&& views.len() == pool.len()
    &&& forall|i: int| 0 <= i < pool.len() ==> (#[trigger] views[i]).shows(pool[i])
}

/// Report on a pool.
fn view_pool(pool: &[UpstreamInfo]) -> (views: Vec<UpstreamView>)
    ensures
        shows_pool(views@, pool@),
{
    let mut views: Vec<UpstreamView> = Vec::new();
    let mut i: usize = 0;
    while i < pool.len()
        invariant
            i <= pool@.len(),
            views@.len() == i,
            forall|j: int| 0 <= j < i ==> (#[trigger] views@[j]).shows(pool@[j]),
        decreases pool@.len() - i,
    {
        views.push(UpstreamView::from_info(&pool[i]));
        i += 1;
    }
    views
}

/// The router's answer to `GET /router/health`.
#[derive(Debug)]
pub struct RouterHealthResponse {
    /// `ok` or `degraded`.
    pub status: &'static str,
    /// The GPU upstreams.
    pub gpu_upstreams: Vec<UpstreamView>,
    /// The CPU upstreams.
    pub cpu_upstreams: Vec<UpstreamView>,
}

/// Some upstream of the pool is healthy.
pub open spec fn some_healthy(pool: Seq<UpstreamInfo>) -> bool {
    exists|i: int| 0 <= i < pool.len() && (#[trigger] pool[i]).status == UpstreamStatus::Healthy
}

/// The router's own health: the HTTP status and the report.
///
/// The router is `ok`, with status 200, while any upstream is healthy; else it
/// is `degraded`, with status 503.
pub fn router_health(snapshot: &PoolSnapshot) -> (answer: (u16, RouterHealthResponse))
    ensures
        shows_pool(answer.1.gpu_upstreams@, snapshot.gpu@),
        shows_pool(answer.1.cpu_upstreams@, snapshot.cpu@),
        if some_healthy(snapshot.gpu@) || some_healthy(snapshot.cpu@) {
            answer.0 == 200 && answer.1.status@ == "ok"@
        } else {
            answer.0 == 503 && answer.1.status@ == "degraded"@
        },
        answer.0 == 200 <==> (exists|i: int|
            0 <= i < snapshot.gpu@.len() && (#[trigger] snapshot.gpu@[i]).status
                == UpstreamStatus::Healthy) || (exists|i: int|
            0 <= i < snapshot.cpu@.len() && (#[trigger] snapshot.cpu@[i]).status
                == UpstreamStatus::Healthy),
{
    let gpu_upstreams = view_pool(snapshot.gpu.as_slice());
    let cpu_upstreams = view_pool(snapshot.cpu.as_slice());
    let gpu_ok: usize = count_healthy(snapshot.gpu.as_slice());
    let cpu_ok: usize = count_healthy(snapshot.cpu.as_slice());
    proof {
        metrics::healthy_count_meaning(snapshot.gpu@);
        metrics::healthy_count_meaning(snapshot.cpu@);
    }
    let status = if gpu_ok > 0 || cpu_ok > 0 {
        "ok"
    } else {
        "degraded"
    };
    let http_status: u16 = if gpu_ok == 0 && cpu_ok == 0 {
        503
    } else {
        200
    };
    (http_status, RouterHealthResponse { status, gpu_upstreams, cpu_upstreams })
}

/// While the router reports itself as ok, it refuses no request: every path
/// has an upstream to go to.
pub proof fn ok_router_refuses_nothing(
    path_and_query: Seq<char>,
    config: Config,
    snapshot: PoolSnapshot,
    plan: Result<Plan, AppError>,
)
    requires
        some_healthy(snapshot.gpu@) || some_healthy(snapshot.cpu@),
        fallback::is_planned(path_and_query, config, snapshot, plan),
    ensures
        plan is Ok,
{
    fallback::refused_only_without_upstreams(path_and_query, config, snapshot, plan);
    assert forall|u: UpstreamInfo| u.status == UpstreamStatus::Healthy implies #[trigger]
        policy::routable(u) by {
    }
    if some_healthy(snapshot.gpu@) {
        let i = choose|i: int|
            0 <= i < snapshot.gpu@.len() && (#[trigger] snapshot.gpu@[i]).status
                == UpstreamStatus::Healthy;
        assert(policy::routable(snapshot.gpu@[i]));
    } else {
        let i = choose|i: int|
            0 <= i < snapshot.cpu@.len() && (#[trigger] snapshot.cpu@[i]).status
                == UpstreamStatus::Healthy;
        assert(policy::routable(snapshot.cpu@[i]));
    }
}

/// The report repeats of every upstream, in pool order, its address, the names
/// of its pool and status, its queue, its workers and when it was last seen.
pub proof fn reports_are_complete(views: Seq<UpstreamView>, pool: Seq<UpstreamInfo>, i: int)
    requires
        shows_pool(views, pool),
        0 <= i < pool.len(),
    ensures
        views.len() == pool.len(),
        views[i].addr@ == pool[i].addr@,
        views[i].pool_type@ == match pool[i].pool_type {
            PoolType::Gpu => "gpu"@,
            PoolType::Cpu => "cpu"@,
        },
        views[i].status@ == match pool[i].status {
            UpstreamStatus::Healthy => "ok"@,
            UpstreamStatus::Loading => "loading"@,
            UpstreamStatus::Fail => "fail"@,
            UpstreamStatus::Unknown => "unknown"@,
        },
        views[i].queue_depth == pool[i].queue_depth,
        views[i].live_workers == pool[i].live_workers,
        views[i].last_seen == pool[i].last_seen,
{
    assert(views[i].shows(pool[i]));
}

/// A pool counts as healthy exactly when an upstream of it does: none that is
/// loading, failed or unknown counts, whatever its queue and its workers.
pub proof fn only_healthy_upstreams_count(pool: Seq<UpstreamInfo>)
    ensures
        some_healthy(pool) <==> !(forall|i: int|
            0 <= i < pool.len() ==> (#[trigger] pool[i]).status == UpstreamStatus::Loading
                || pool[i].status == UpstreamStatus::Fail || pool[i].status
                == UpstreamStatus::Unknown),
{
    if some_healthy(pool) {
        let i = choose|i: int|
            0 <= i < pool.len() && (#[trigger] pool[i]).status == UpstreamStatus::Healthy;
        assert(pool[i].status == UpstreamStatus::Healthy);
    } else {
        assert forall|i: int| 0 <= i < pool.len() implies (#[trigger] pool[i]).status
            == UpstreamStatus::Loading || pool[i].status == UpstreamStatus::Fail || pool[i].status
            == UpstreamStatus::Unknown by {
            assert(pool[i].status != UpstreamStatus::Healthy);
        }
    }
}

}
