//! Routing policy: given a [`PoolSnapshot`], pick the best upstream.
//!
//! Priority order:
//! 1. GPU upstreams with status `Healthy`, lowest `queue_depth` first.
//! 2. CPU upstreams with status `Healthy`, lowest `queue_depth` first.
//! 3. GPU upstreams with status `Loading` and `live_workers > 0`,
//!    lowest `queue_depth` first.
//! 4. CPU upstreams with status `Loading` and `live_workers > 0`, lowest
//!    `queue_depth` first.
//! 5. None.
//!
//! An idle upstream reports itself as loading, accepts requests and reloads
//! its models on demand; routing to it when nothing better is there is what
//! makes it reload.

use vstd::prelude::*;

use crate::upstream::snapshot::{PoolSnapshot, PoolType, UpstreamInfo, UpstreamStatus};

verus! {

/// How ready an upstream must be to be picked.
#[derive(Debug, Clone, Copy, PartialEq, Eq, Structural)]
pub enum Tier {
    /// Serving.
    Serving,
    /// Loading its models, with workers that will take the request.
    Waking,
}

impl Tier {
    /// Whether the upstream belongs to this tier.
    pub open spec fn admits(self, u: UpstreamInfo) -> bool {
        match self {
            Tier::Serving => u.status == UpstreamStatus::Healthy,
            Tier::Waking => u.status == UpstreamStatus::Loading && u.live_workers > 0,
        }
    }
}

/// Whether a request may be sent to the upstream at all.
pub open spec fn routable(u: UpstreamInfo) -> bool {
    Tier::Serving.admits(u) || Tier::Waking.admits(u)
}

/// Upstream `i` has the shortest queue of its tier, and no earlier one has
/// as short a queue.
pub open spec fn is_best(pool: Seq<UpstreamInfo>, tier: Tier, i: int) -> bool {
    &&& 0 <= i < pool.len()
    &&& tier.admits(pool[i])
    &&& forall|j: int|
        0 <= j < pool.len() && tier.admits(#[trigger] pool[j]) ==> pool[i].queue_depth
            <= pool[j].queue_depth
    &&& forall|j: int|
        0 <= j < i && tier.admits(#[trigger] pool[j]) ==> pool[i].queue_depth < pool[j].queue_depth
}

/// The best upstream of a tier, if the tier is not empty.
pub open spec fn best_of(pool: Seq<UpstreamInfo>, tier: Tier) -> Option<UpstreamInfo> {
    if exists|i: int| is_best(pool, tier, i) {
        Some(pool[choose|i: int| is_best(pool, tier, i)])
    } else {
        None
    }
}

/// At most one upstream of a pool is the best of a tier.
pub proof fn best_is_unique(pool: Seq<UpstreamInfo>, tier: Tier, i: int, j: int)
    requires
        is_best(pool, tier, i),
        is_best(pool, tier, j),
    ensures
        i == j,
{
    if i < j {
        assert(tier.admits(pool[i]));
    } else if j < i {
        assert(tier.admits(pool[j]));
    }
}

/// The index of the best upstream of a tier.
fn best_index(pool: &[UpstreamInfo], tier: Tier) -> (found: Option<usize>)
    ensures
        match found {
            Some(i) => is_best(pool@, tier, i as int),
            None => forall|j: int| 0 <= j < pool@.len() ==> !tier.admits(#[trigger] pool@[j]),
        },
{
    let mut found: Option<usize> = None;
    let mut i: usize = 0;
    while i < pool.len()
        invariant
            i <= pool@.len(),
            match found {
                Some(b) => b < i && is_best(pool@.take(i as int), tier, b as int),
                None => forall|j: int| 0 <= j < i ==> !tier.admits(#[trigger] pool@[j]),
            },
        decreases pool@.len() - i,
    {
        let ghost before = pool@.take(i as int);
        let ghost after = pool@.take(i + 1);
        assert(forall|j: int| 0 <= j < i ==> before[j] == after[j]);
        assert(after[i as int] == pool@[i as int]);
        let u = &pool[i];
        let admitted = match tier {
            Tier::Serving => u.status == UpstreamStatus::Healthy,
            Tier::Waking => u.status == UpstreamStatus::Loading && u.live_workers > 0,
        };
        if admitted {
            match found {
                Some(b) => {
                    if u.queue_depth < pool[b].queue_depth {
                        found = Some(i);
                    }
                },
                None => {
                    found = Some(i);
                },
            }
        }
        i += 1;
    }
    assert(pool@.take(pool@.len() as int) =~= pool@);
    found
}

/// Where a request goes: the address and the pool it was picked from.
pub open spec fn target(pick: Option<(String, PoolType)>) -> Option<(Seq<char>, PoolType)> {
    match pick {
        Some((addr, pool_type)) => Some((addr@, pool_type)),
        None => None,
    }
}

/// The pool of the two that `pool_type` names.
pub open spec fn pool_named(
    gpu: Seq<UpstreamInfo>,
    cpu: Seq<UpstreamInfo>,
    pool_type: PoolType,
) -> Seq<UpstreamInfo> {
    match pool_type {
        PoolType::Gpu => gpu,
        PoolType::Cpu => cpu,
    }
}

/// The best upstream of one tier of one pool.
pub open spec fn tier_target(pool: Seq<UpstreamInfo>, tier: Tier, pool_type: PoolType) -> Option<
    (Seq<char>, PoolType),
> {
    match best_of(pool, tier) {
        Some(u) => Some((u.addr@, pool_type)),
        None => None,
    }
}

/// The first choice if there is one, else the second.
pub open spec fn or_else<A>(first: Option<A>, second: Option<A>) -> Option<A> {
    if first is Some {
        first
    } else {
        second
    }
}

/// The best upstream of one pool: a serving one, else a waking one.
pub open spec fn pool_target(pool: Seq<UpstreamInfo>, pool_type: PoolType) -> Option<
    (Seq<char>, PoolType),
> {
    or_else(
        tier_target(pool, Tier::Serving, pool_type),
        tier_target(pool, Tier::Waking, pool_type),
    )
}

/// The best upstream of both pools: serving before waking, GPU before CPU.
pub open spec fn snapshot_target(gpu: Seq<UpstreamInfo>, cpu: Seq<UpstreamInfo>) -> Option<
    (Seq<char>, PoolType),
> {
    or_else(
        or_else(
            tier_target(gpu, Tier::Serving, PoolType::Gpu),
            tier_target(cpu, Tier::Serving, PoolType::Cpu),
        ),
        or_else(
            tier_target(gpu, Tier::Waking, PoolType::Gpu),
            tier_target(cpu, Tier::Waking, PoolType::Cpu),
        ),
    )
}

/// Pick the best upstream of one tier.
fn pick_tier(pool: &[UpstreamInfo], tier: Tier, pool_type: PoolType) -> (pick: Option<
    (String, PoolType),
>)
    ensures
        target(pick) == tier_target(pool@, tier, pool_type),
{
    match best_index(pool, tier) {
        Some(i) => {
            proof {
                let k = choose|k: int| is_best(pool@, tier, k);
                best_is_unique(pool@, tier, k, i as int);
            }
            Some((pool[i].addr.clone(), pool_type))
        },
        None => None,
    }
}

/// Pick the least-loaded serving upstream.
fn pick_ok(pool: &[UpstreamInfo], pool_type: PoolType) -> (pick: Option<(String, PoolType)>)
    ensures
        target(pick) == tier_target(pool@, Tier::Serving, pool_type),
{
    pick_tier(pool, Tier::Serving, pool_type)
}

/// Pick the least-loaded loading upstream that has live workers.
fn pick_loading(pool: &[UpstreamInfo], pool_type: PoolType) -> (pick: Option<(String, PoolType)>)
    ensures
        target(pick) == tier_target(pool@, Tier::Waking, pool_type),
{
    pick_tier(pool, Tier::Waking, pool_type)
}

/// Pick the best available upstream from the given snapshot.
///
/// Returns the address and its pool, or `None` if no upstream is routable.
#[must_use]
pub fn pick(snapshot: &PoolSnapshot) -> (pick: Option<(String, PoolType)>)
    ensures
        target(pick) == snapshot_target(snapshot.gpu@, snapshot.cpu@),
{
    if let Some(found) = pick_ok(snapshot.gpu.as_slice(), PoolType::Gpu) {
        return Some(found);
    }
    if let Some(found) = pick_ok(snapshot.cpu.as_slice(), PoolType::Cpu) {
        return Some(found);
    }
    if let Some(found) = pick_loading(snapshot.gpu.as_slice(), PoolType::Gpu) {
        return Some(found);
    }
    pick_loading(snapshot.cpu.as_slice(), PoolType::Cpu)
}

/// Pick the best GPU upstream, or `None` if no GPU upstream is routable.
#[must_use]
pub fn pick_gpu(snapshot: &PoolSnapshot) -> (pick: Option<(String, PoolType)>)
    ensures
        target(pick) == pool_target(snapshot.gpu@, PoolType::Gpu),
{
    if let Some(found) = pick_ok(snapshot.gpu.as_slice(), PoolType::Gpu) {
        return Some(found);
    }
    pick_loading(snapshot.gpu.as_slice(), PoolType::Gpu)
}

/// Pick the best CPU upstream, or `None` if no CPU upstream is routable.
#[must_use]
pub fn pick_cpu(snapshot: &PoolSnapshot) -> (pick: Option<(String, PoolType)>)
    ensures
        target(pick) == pool_target(snapshot.cpu@, PoolType::Cpu),
{
    if let Some(found) = pick_ok(snapshot.cpu.as_slice(), PoolType::Cpu) {
        return Some(found);
    }
    pick_loading(snapshot.cpu.as_slice(), PoolType::Cpu)
}

/// Every tier that admits an upstream has a best one.
pub proof fn tier_has_best(pool: Seq<UpstreamInfo>, tier: Tier, member: int)
    requires
        0 <= member < pool.len(),
        tier.admits(pool[member]),
    ensures
        exists|i: int| is_best(pool, tier, i),
    decreases pool.len(),
{
    let last = pool.len() - 1;
    let rest = pool.drop_last();
    assert(forall|j: int| 0 <= j < last ==> rest[j] == pool[j]);
    if exists|k: int| 0 <= k < last && tier.admits(#[trigger] rest[k]) {
        let k = choose|k: int| 0 <= k < last && tier.admits(#[trigger] rest[k]);
        tier_has_best(rest, tier, k);
        let b = choose|b: int| is_best(rest, tier, b);
        assert(tier.admits(pool[b]));
        if tier.admits(pool[last]) && pool[last].queue_depth < pool[b].queue_depth {
            assert(is_best(pool, tier, last));
        } else {
            assert(is_best(pool, tier, b));
        }
    } else {
        assert forall|j: int| 0 <= j < last implies !tier.admits(#[trigger] pool[j]) by {
            assert(rest[j] == pool[j]);
        }
        assert(member == last);
        assert(is_best(pool, tier, last));
    }
}

/// The best of a tier belongs to the pool and to the tier.
pub proof fn best_belongs(pool: Seq<UpstreamInfo>, tier: Tier)
    ensures
        match best_of(pool, tier) {
            Some(u) => pool.contains(u) && tier.admits(u),
            None => forall|j: int| 0 <= j < pool.len() ==> !tier.admits(#[trigger] pool[j]),
        },
{
    match best_of(pool, tier) {
        Some(u) => {
            let i = choose|i: int| is_best(pool, tier, i);
            assert(pool[i] == u);
        },
        None => {
            assert forall|j: int| 0 <= j < pool.len() implies !tier.admits(#[trigger] pool[j]) by {
                if tier.admits(pool[j]) {
                    tier_has_best(pool, tier, j);
                }
            }
        },
    }
}

/// A failed upstream, one never heard of, and one that is loading without
/// live workers are never routable.
pub proof fn unready_is_not_routable(u: UpstreamInfo)
    requires
        u.status == UpstreamStatus::Fail || u.status == UpstreamStatus::Unknown || (u.status
            == UpstreamStatus::Loading && u.live_workers == 0),
    ensures
        !routable(u),
{
}

/// Whatever is picked is a routable upstream of the pool it is said to be in.
pub proof fn picked_is_routable(gpu: Seq<UpstreamInfo>, cpu: Seq<UpstreamInfo>)
    ensures
        snapshot_target(gpu, cpu) matches Some((addr, pool_type)) ==> exists|u: UpstreamInfo|
            {
                &&& #[trigger] pool_named(gpu, cpu, pool_type).contains(u)
                &&& u.addr@ == addr
                &&& routable(u)
            },
{
    best_belongs(gpu, Tier::Serving);
    best_belongs(cpu, Tier::Serving);
    best_belongs(gpu, Tier::Waking);
    best_belongs(cpu, Tier::Waking);
    if let Some((addr, pool_type)) = snapshot_target(gpu, cpu) {
        let pool = pool_named(gpu, cpu, pool_type);
        let tier = if best_of(gpu, Tier::Serving) is Some || best_of(cpu, Tier::Serving) is Some {
            Tier::Serving
        } else {
            Tier::Waking
        };
        assert(pool.contains(best_of(pool, tier)->0));
    }
}

/// Nothing is picked exactly when no upstream of either pool is routable.
pub proof fn nothing_picked_means_nothing_routable(gpu: Seq<UpstreamInfo>, cpu: Seq<UpstreamInfo>)
    ensures
        snapshot_target(gpu, cpu) is None <==> {
            &&& forall|j: int| 0 <= j < gpu.len() ==> !routable(#[trigger] gpu[j])
            &&& forall|j: int| 0 <= j < cpu.len() ==> !routable(#[trigger] cpu[j])
        },
{
    best_belongs(gpu, Tier::Serving);
    best_belongs(cpu, Tier::Serving);
    best_belongs(gpu, Tier::Waking);
    best_belongs(cpu, Tier::Waking);
}

/// While any GPU upstream is serving, the pick is the serving GPU upstream
/// with the shortest queue, however short the CPU queues are.
pub proof fn serving_gpu_is_preferred(gpu: Seq<UpstreamInfo>, cpu: Seq<UpstreamInfo>, i: int)
    requires
        is_best(gpu, Tier::Serving, i),
    ensures
        snapshot_target(gpu, cpu) == Some((gpu[i].addr@, PoolType::Gpu)),
        pool_target(gpu, PoolType::Gpu) == Some((gpu[i].addr@, PoolType::Gpu)),
{
    let k = choose|k: int| is_best(gpu, Tier::Serving, k);
    best_is_unique(gpu, Tier::Serving, i, k);
}

/// While no GPU upstream is serving, a serving CPU upstream is picked before
/// any GPU upstream that would have to load its models first.
pub proof fn serving_cpu_beats_waking_gpu(gpu: Seq<UpstreamInfo>, cpu: Seq<UpstreamInfo>, i: int)
    requires
        forall|j: int| 0 <= j < gpu.len() ==> !Tier::Serving.admits(#[trigger] gpu[j]),
        is_best(cpu, Tier::Serving, i),
    ensures
        snapshot_target(gpu, cpu) == Some((cpu[i].addr@, PoolType::Cpu)),
{
    best_belongs(gpu, Tier::Serving);
    let k = choose|k: int| is_best(cpu, Tier::Serving, k);
    best_is_unique(cpu, Tier::Serving, i, k);
}

/// Something is picked from both pools together exactly when something is
/// picked from one of them alone.
pub proof fn pick_agrees_with_pools(gpu: Seq<UpstreamInfo>, cpu: Seq<UpstreamInfo>)
    ensures
        snapshot_target(gpu, cpu) is Some <==> pool_target(gpu, PoolType::Gpu) is Some
            || pool_target(cpu, PoolType::Cpu) is Some,
        snapshot_target(gpu, cpu) is Some ==> snapshot_target(gpu, cpu) == pool_target(
            gpu,
            PoolType::Gpu,
        ) || snapshot_target(gpu, cpu) == pool_target(cpu, PoolType::Cpu),
{
}

/// An upstream is routable when it is healthy, or loading with live workers.
pub proof fn routable_upstreams(u: UpstreamInfo)
    ensures
        routable(u) <==> u.status == UpstreamStatus::Healthy || (u.status
            == UpstreamStatus::Loading && u.live_workers > 0),
{
}

/// What stands at the place of the best upstream is what is picked from the
/// tier.
proof fn best_is_picked(pool: Seq<UpstreamInfo>, tier: Tier, member: int) -> (i: int)
    requires
        0 <= member < pool.len(),
        tier.admits(pool[member]),
    ensures
        is_best(pool, tier, i),
        best_of(pool, tier) == Some(pool[i]),
{
    tier_has_best(pool, tier, member);
    choose|i: int| is_best(pool, tier, i)
}

/// A pool with a healthy upstream gives a healthy upstream: the first of those
/// with the shortest queue among the healthy ones, whatever the others are.
pub proof fn healthy_upstream_is_picked(
    pool: Seq<UpstreamInfo>,
    pool_type: PoolType,
    member: int,
) -> (i: int)
    requires
        0 <= member < pool.len(),
        pool[member].status == UpstreamStatus::Healthy,
    ensures
        0 <= i < pool.len(),
        pool[i].status == UpstreamStatus::Healthy,
        pool_target(pool, pool_type) == Some((pool[i].addr@, pool_type)),
        forall|j: int|
            0 <= j < pool.len() && (#[trigger] pool[j]).status == UpstreamStatus::Healthy
                ==> pool[i].queue_depth <= pool[j].queue_depth,
        forall|j: int|
            0 <= j < i && (#[trigger] pool[j]).status == UpstreamStatus::Healthy
                ==> pool[i].queue_depth < pool[j].queue_depth,
{
    let i = best_is_picked(pool, Tier::Serving, member);
    assert forall|j: int|
        0 <= j < pool.len() && (#[trigger] pool[j]).status
            == UpstreamStatus::Healthy implies pool[i].queue_depth <= pool[j].queue_depth by {
        assert(Tier::Serving.admits(pool[j]));
    }
    assert forall|j: int|
        0 <= j < i && (#[trigger] pool[j]).status
            == UpstreamStatus::Healthy implies pool[i].queue_depth < pool[j].queue_depth by {
        assert(Tier::Serving.admits(pool[j]));
    }
    i
}

/// A pool without a healthy upstream, but with a loading one that has live
/// workers, gives such a one: the first of those with the shortest queue.
pub proof fn loading_upstream_is_picked_without_healthy(
    pool: Seq<UpstreamInfo>,
    pool_type: PoolType,
    member: int,
) -> (i: int)
    requires
        forall|j: int|
            0 <= j < pool.len() ==> (#[trigger] pool[j]).status != UpstreamStatus::Healthy,
        0 <= member < pool.len(),
        pool[member].status == UpstreamStatus::Loading,
        pool[member].live_workers > 0,
    ensures
        0 <= i < pool.len(),
        pool[i].status == UpstreamStatus::Loading,
        pool[i].live_workers > 0,
        pool_target(pool, pool_type) == Some((pool[i].addr@, pool_type)),
        forall|j: int|
            0 <= j < pool.len() && (#[trigger] pool[j]).status == UpstreamStatus::Loading
                && pool[j].live_workers > 0 ==> pool[i].queue_depth <= pool[j].queue_depth,
        forall|j: int|
            0 <= j < i && (#[trigger] pool[j]).status == UpstreamStatus::Loading
                && pool[j].live_workers > 0 ==> pool[i].queue_depth < pool[j].queue_depth,
{
    assert(best_of(pool, Tier::Serving) is None) by {
        if best_of(pool, Tier::Serving) is Some {
            let k = choose|k: int| is_best(pool, Tier::Serving, k);
            assert(pool[k].status == UpstreamStatus::Healthy);
        }
    }
    let i = best_is_picked(pool, Tier::Waking, member);
    assert forall|j: int|
        0 <= j < pool.len() && (#[trigger] pool[j]).status == UpstreamStatus::Loading
            && pool[j].live_workers > 0 implies pool[i].queue_depth <= pool[j].queue_depth by {
        assert(Tier::Waking.admits(pool[j]));
    }
    assert forall|j: int|
        0 <= j < i && (#[trigger] pool[j]).status == UpstreamStatus::Loading
            && pool[j].live_workers > 0 implies pool[i].queue_depth < pool[j].queue_depth by {
        assert(Tier::Waking.admits(pool[j]));
    }
    i
}

/// A pool gives nothing exactly when none of its upstreams is healthy and none
/// is loading with live workers.
pub proof fn nothing_is_picked_from_an_unready_pool(pool: Seq<UpstreamInfo>, pool_type: PoolType)
    ensures
        pool_target(pool, pool_type) is None <==> forall|j: int|
            0 <= j < pool.len() ==> (#[trigger] pool[j]).status != UpstreamStatus::Healthy && !(
            pool[j].status == UpstreamStatus::Loading && pool[j].live_workers > 0),
{
    best_belongs(pool, Tier::Serving);
    best_belongs(pool, Tier::Waking);
    if best_of(pool, Tier::Serving) is Some {
        let k = choose|k: int| is_best(pool, Tier::Serving, k);
        assert(pool[k].status == UpstreamStatus::Healthy);
    } else if best_of(pool, Tier::Waking) is Some {
        let k = choose|k: int| is_best(pool, Tier::Waking, k);
        assert(pool[k].status == UpstreamStatus::Loading && pool[k].live_workers > 0);
    }
}

/// While no GPU upstream is healthy and some CPU upstream is, a healthy CPU
/// upstream is picked from both pools, the first of those with the shortest
/// queue, however many workers the loading upstreams have.
pub proof fn healthy_cpu_is_picked_without_healthy_gpu(
    gpu: Seq<UpstreamInfo>,
    cpu: Seq<UpstreamInfo>,
    member: int,
) -> (i: int)
    requires
        forall|j: int| 0 <= j < gpu.len() ==> (#[trigger] gpu[j]).status != UpstreamStatus::Healthy,
        0 <= member < cpu.len(),
        cpu[member].status == UpstreamStatus::Healthy,
    ensures
        0 <= i < cpu.len(),
        cpu[i].status == UpstreamStatus::Healthy,
        snapshot_target(gpu, cpu) == Some((cpu[i].addr@, PoolType::Cpu)),
        forall|j: int|
            0 <= j < cpu.len() && (#[trigger] cpu[j]).status == UpstreamStatus::Healthy
                ==> cpu[i].queue_depth <= cpu[j].queue_depth,
        forall|j: int|
            0 <= j < i && (#[trigger] cpu[j]).status == UpstreamStatus::Healthy
                ==> cpu[i].queue_depth < cpu[j].queue_depth,
{
    pools_are_picked_from_in_order(gpu, cpu);
    healthy_upstream_is_picked(cpu, PoolType::Cpu, member)
}

/// A pick says of an upstream its address and its pool, and nothing else.
pub proof fn picks_name_address_and_pool(addr: String, pool_type: PoolType)
    ensures
        target(Some((addr, pool_type))) == Some((addr@, pool_type)),
        target(None) is None,
{
}

/// Of both pools the GPU pool is picked from while it has a healthy upstream;
/// else the CPU pool while it has one; else the GPU pool while it has a loading
/// upstream with live workers; else the CPU pool.
pub proof fn pools_are_picked_from_in_order(gpu: Seq<UpstreamInfo>, cpu: Seq<UpstreamInfo>)
    ensures
        ({
            let gpu_healthy = exists|i: int|
                0 <= i < gpu.len() && (#[trigger] gpu[i]).status == UpstreamStatus::Healthy;
            let cpu_healthy = exists|i: int|
                0 <= i < cpu.len() && (#[trigger] cpu[i]).status == UpstreamStatus::Healthy;
            let gpu_loading = exists|i: int|
                0 <= i < gpu.len() && (#[trigger] gpu[i]).status == UpstreamStatus::Loading
                    && gpu[i].live_workers > 0;
            snapshot_target(gpu, cpu) == if gpu_healthy {
                pool_target(gpu, PoolType::Gpu)
            } else if cpu_healthy {
                pool_target(cpu, PoolType::Cpu)
            } else if gpu_loading {
                pool_target(gpu, PoolType::Gpu)
            } else {
                pool_target(cpu, PoolType::Cpu)
            }
        }),
{
    best_belongs(gpu, Tier::Serving);
    best_belongs(cpu, Tier::Serving);
    best_belongs(gpu, Tier::Waking);
    best_belongs(cpu, Tier::Waking);
    let gpu_healthy = exists|i: int|
        0 <= i < gpu.len() && (#[trigger] gpu[i]).status == UpstreamStatus::Healthy;
    let cpu_healthy = exists|i: int|
        0 <= i < cpu.len() && (#[trigger] cpu[i]).status == UpstreamStatus::Healthy;
    let gpu_loading = exists|i: int|
        0 <= i < gpu.len() && (#[trigger] gpu[i]).status == UpstreamStatus::Loading
            && gpu[i].live_workers > 0;
    if gpu_healthy {
        let i = choose|i: int|
            0 <= i < gpu.len() && (#[trigger] gpu[i]).status == UpstreamStatus::Healthy;
        assert(Tier::Serving.admits(gpu[i]));
    } else if best_of(gpu, Tier::Serving) is Some {
        let i = choose|i: int| is_best(gpu, Tier::Serving, i);
        assert(gpu[i].status == UpstreamStatus::Healthy);
    }
    if cpu_healthy {
        let i = choose|i: int|
            0 <= i < cpu.len() && (#[trigger] cpu[i]).status == UpstreamStatus::Healthy;
        assert(Tier::Serving.admits(cpu[i]));
    } else if best_of(cpu, Tier::Serving) is Some {
        let i = choose|i: int| is_best(cpu, Tier::Serving, i);
        assert(cpu[i].status == UpstreamStatus::Healthy);
    }
    if gpu_loading {
        let i = choose|i: int|
            0 <= i < gpu.len() && (#[trigger] gpu[i]).status == UpstreamStatus::Loading
                && gpu[i].live_workers > 0;
        assert(Tier::Waking.admits(gpu[i]));
    } else if best_of(gpu, Tier::Waking) is Some {
        let i = choose|i: int| is_best(gpu, Tier::Waking, i);
        assert(gpu[i].status == UpstreamStatus::Loading && gpu[i].live_workers > 0);
    }
}

}
