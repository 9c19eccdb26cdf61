//! Periodic heartbeat: a summary of the pools.

use vstd::prelude::*;

use crate::config::Config;
use crate::upstream::snapshot::{PoolSnapshot, UpstreamInfo, UpstreamStatus};

verus! {

/// How many upstreams of a pool are healthy.
pub open spec fn healthy_count(pool: Seq<UpstreamInfo>) -> nat
    decreases pool.len(),
{
    if pool.len() == 0 {
        0
    } else {
        healthy_count(pool.drop_last()) + if pool.last().status == UpstreamStatus::Healthy {
            1nat
        } else {
            0nat
        }
    }
}

/// The queue depths of a pool, summed up.
pub open spec fn depth_sum(pool: Seq<UpstreamInfo>) -> nat
    decreases pool.len(),
{
    if pool.len() == 0 {
        0
    } else {
        depth_sum(pool.drop_last()) + pool.last().queue_depth as nat
    }
}

/// Fewer upstreams have no larger sum.
proof fn depth_sum_grows(pool: Seq<UpstreamInfo>, n: int)
    requires
        0 <= n <= pool.len(),
    ensures
        depth_sum(pool.take(n)) <= depth_sum(pool),
    decreases pool.len(),
{
    if n == pool.len() {
        assert(pool.take(n) =~= pool);
    } else {
        depth_sum_grows(pool.drop_last(), n);
        assert(pool.drop_last().take(n) =~= pool.take(n));
    }
}

/// There are no more healthy upstreams than upstreams, and there is one
/// exactly when the count is not zero.
pub proof fn healthy_count_meaning(pool: Seq<UpstreamInfo>)
    ensures
        healthy_count(pool) <= pool.len(),
        healthy_count(pool) > 0 <==> exists|i: int|
            0 <= i < pool.len() && (#[trigger] pool[i]).status == UpstreamStatus::Healthy,
    decreases pool.len(),
{
    if pool.len() > 0 {
        let rest = pool.drop_last();
        healthy_count_meaning(rest);
        if pool.last().status == UpstreamStatus::Healthy {
            assert(pool[pool.len() - 1].status == UpstreamStatus::Healthy);
        }
        if exists|i: int| 0 <= i < rest.len() && (#[trigger] rest[i]).status
            == UpstreamStatus::Healthy {
            let i = choose|i: int|
                0 <= i < rest.len() && (#[trigger] rest[i]).status == UpstreamStatus::Healthy;
            assert(pool[i].status == UpstreamStatus::Healthy);
        }
        assert forall|i: int|
            0 <= i < pool.len() && (#[trigger] pool[i]).status
                == UpstreamStatus::Healthy implies healthy_count(pool) > 0 by {
            if i < rest.len() {
                assert(rest[i].status == UpstreamStatus::Healthy);
            }
        }
    }
}

/// Count the healthy upstreams of a pool.
pub fn count_healthy(pool: &[UpstreamInfo]) -> (count: usize)
    ensures
        count == healthy_count(pool@),
{
    let mut count: usize = 0;
    let mut i: usize = 0;
    while i < pool.len()
        invariant
            i <= pool@.len(),
            count <= i,
            count == healthy_count(pool@.take(i as int)),
        decreases pool@.len() - i,
    {
        assert(pool@.take(i + 1).drop_last() =~= pool@.take(i as int));
        if pool[i].status == UpstreamStatus::Healthy {
            count += 1;
        }
        i += 1;
    }
    assert(pool@.take(pool@.len() as int) =~= pool@);
    count
}

/// Sum up the queue depths of a pool. There is no sum where it does not fit.
pub fn sum_depths(pool: &[UpstreamInfo]) -> (sum: Option<u32>)
    ensures
        match sum {
            Some(s) => s == depth_sum(pool@),
            None => depth_sum(pool@) > u32::MAX,
        },
{
    let mut sum: u32 = 0;
    let mut i: usize = 0;
    while i < pool.len()
        invariant
            i <= pool@.len(),
            sum == depth_sum(pool@.take(i as int)),
        decreases pool@.len() - i,
    {
        proof {
            assert(pool@.take(i + 1).drop_last() =~= pool@.take(i as int));
            depth_sum_grows(pool@, i + 1);
        }
        match sum.checked_add(pool[i].queue_depth) {
            Some(s) => {
                sum = s;
            },
            None => {
                return None;
            },
        }
        i += 1;
    }
    assert(pool@.take(pool@.len() as int) =~= pool@);
    Some(sum)
}

/// What a heartbeat reports of one pool.
#[derive(Debug, Clone, Copy, PartialEq, Eq, Structural)]
pub struct PoolSummary {
    /// How many upstreams there are.
    pub upstreams: usize,
    /// How many of them are healthy.
    pub ok_count: usize,
    /// Their queue depths, summed up.
    pub queue_depth_sum: u32,
}

impl PoolSummary {
    /// This is the summary of the pool.
    pub open spec fn sums_up(self, pool: Seq<UpstreamInfo>) -> bool {
        &&& self.upstreams == pool.len()
        &&& self.ok_count == healthy_count(pool)
        &&& self.queue_depth_sum == depth_sum(pool)
    }
}

/// Sum up one pool. There is no summary where the queue depths add up to more
/// than 32 bits hold.
fn summarize_pool(pool: &[UpstreamInfo]) -> (summary: Option<PoolSummary>)
    ensures
        match summary {
            Some(s) => s.sums_up(pool@),
            None => depth_sum(pool@) > u32::MAX,
        },
{
    match sum_depths(pool) {
        Some(queue_depth_sum) => Some(
            PoolSummary { upstreams: pool.len(), ok_count: count_healthy(pool), queue_depth_sum },
        ),
        None => None,
    }
}

/// What a heartbeat reports, GPU pool first. There is nothing to report where
/// the queue depths of a pool add up to more than 32 bits hold.
pub fn summarize(snapshot: &PoolSnapshot) -> (summary: Option<(PoolSummary, PoolSummary)>)
    ensures
        match summary {
            Some((gpu, cpu)) => gpu.sums_up(snapshot.gpu@) && cpu.sums_up(snapshot.cpu@),
            None => depth_sum(snapshot.gpu@) > u32::MAX || depth_sum(snapshot.cpu@) > u32::MAX,
        },
{
    match (summarize_pool(snapshot.gpu.as_slice()), summarize_pool(snapshot.cpu.as_slice())) {
        (Some(gpu), Some(cpu)) => Some((gpu, cpu)),
        _ => None,
    }
}

/// Whether heartbeats are to be emitted: not when their interval is zero.
pub fn heartbeat_enabled(config: &Config) -> (enabled: bool)
    ensures
        enabled == (config.heartbeat@ > 0),
{
    !config.heartbeat.is_zero()
}

/// One more upstream adds one to the count exactly when it is healthy, and its
/// queue to the sum; an empty pool has neither.
pub proof fn upstreams_add_up(pool: Seq<UpstreamInfo>, u: UpstreamInfo)
    ensures
        healthy_count(Seq::empty()) == 0,
        depth_sum(Seq::empty()) == 0,
        u.status == UpstreamStatus::Healthy ==> healthy_count(pool.push(u)) == healthy_count(pool)
            + 1,
        u.status != UpstreamStatus::Healthy ==> healthy_count(pool.push(u)) == healthy_count(pool),
        depth_sum(pool.push(u)) == depth_sum(pool) + u.queue_depth,
{
    assert(pool.push(u).drop_last() =~= pool);
    assert(pool.push(u).last() == u);
}

/// Two parts of a pool have together the healthy upstreams and the queue of the
/// whole.
pub proof fn parts_add_up(a: Seq<UpstreamInfo>, b: Seq<UpstreamInfo>)
    ensures
        healthy_count(a + b) == healthy_count(a) + healthy_count(b),
        depth_sum(a + b) == depth_sum(a) + depth_sum(b),
    decreases b.len(),
{
    if b.len() == 0 {
        assert(a + b =~= a);
    } else {
        parts_add_up(a, b.drop_last());
        assert((a + b).drop_last() =~= a + b.drop_last());
        assert((a + b).last() == b.last());
    }
}

/// A summary has the pool's size, its healthy upstreams and its whole queue.
pub proof fn summaries_are_complete(summary: PoolSummary, pool: Seq<UpstreamInfo>)
    ensures
        summary.sums_up(pool) <==> summary.upstreams == pool.len() && summary.ok_count
            == healthy_count(pool) && summary.queue_depth_sum == depth_sum(pool),
{
}

}
