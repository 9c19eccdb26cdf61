//! DNS-based upstream discovery.
//!
//! The names of both pools are resolved again and again. A lookup that
//! succeeds replaces the pool's members: new addresses enter as
//! [`UpstreamStatus::Unknown`], known ones keep their health, vanished ones
//! leave. A lookup that fails leaves the pool as it was: addresses that are
//! really gone are marked as failed by the health poller and become
//! unroutable on their own.
//!
//! Between lookups the loop waits for the configured refresh interval while
//! both pools have addresses. When one has none, it retries after two seconds
//! and then doubles the wait up to the refresh interval.

use std::sync::Arc;
use std::time::Instant;

use vstd::prelude::*;

use crate::router::policy;
use crate::text;
use crate::text::{join, to_decimal};
use crate::time::Duration;
use crate::upstream::shared;
use crate::upstream::shared::SharedPool;
use crate::upstream::snapshot;
use crate::upstream::snapshot::{
    copy_pool, now, PoolSnapshot, PoolType, UpstreamInfo, UpstreamStatus,
};

verus! {

/// The port that every upstream listens on.
pub const UPSTREAM_PORT: u16 = 8081;

/// Seconds to wait after the first refresh that leaves a pool without
/// addresses.
pub const INITIAL_RETRY_SECS: u64 = 2;

/// Outcome of a single DNS resolution attempt.
#[derive(Debug)]
pub enum ResolveResult {
    /// The lookup succeeded. There may be no address: the service has no
    /// instances.
    Resolved(Vec<String>),
    /// The lookup failed. The pool keeps what it has.
    Failed,
}

impl ResolveResult {
    /// The lookup produced at least one address.
    pub open spec fn populated(self) -> bool {
        self matches ResolveResult::Resolved(addrs) && addrs@.len() > 0
    }

    /// Returns `true` when the lookup succeeded and produced at least one address.
    pub fn has_addrs(&self) -> (populated: bool)
        ensures
            populated == self.populated(),
    {
        match self {
            ResolveResult::Resolved(addrs) => !addrs.is_empty(),
            ResolveResult::Failed => false,
        }
    }
}

/// What is asked of the resolver: `name:port`.
pub fn lookup_host(dns_name: &str, port: u16) -> (host: String)
    ensures
        host@ == dns_name@ + ":"@ + text::decimal(port as nat),
{
    let digits = to_decimal(port as u64);
    let named = join(dns_name, ":");
    join(named.as_str(), digits.as_str())
}

/// A lookup's outcome in short: `ok(n)` for `n` addresses, or `failed`.
pub open spec fn resolve_text(result: ResolveResult) -> Seq<char> {
    match result {
        ResolveResult::Resolved(addrs) => "ok("@ + text::decimal(addrs@.len()) + ")"@,
        ResolveResult::Failed => "failed"@,
    }
}

/// Format a [`ResolveResult`] as a short string for log fields.
pub fn describe_resolve(result: &ResolveResult) -> (text: String)
    ensures
        text@ == resolve_text(*result),
{
    match result {
        ResolveResult::Resolved(addrs) => {
            let count = to_decimal(addrs.len() as u64);
            let opened = join("ok(", count.as_str());
            join(opened.as_str(), ")")
        },
        ResolveResult::Failed => "failed".to_owned(),
    }
}

/// An upstream that was just discovered.
pub open spec fn newcomer(addr: String, pool_type: PoolType, now: Instant) -> UpstreamInfo {
    UpstreamInfo {
        addr,
        pool_type,
        status: UpstreamStatus::Unknown,
        queue_depth: 0,
        live_workers: 0,
        last_seen: now,
    }
}

/// What the pool holds for a resolved address: the first upstream known
/// under it, or a newcomer.
pub open spec fn merged_entry(
    existing: Seq<UpstreamInfo>,
    addr: String,
    pool_type: PoolType,
    now: Instant,
) -> UpstreamInfo {
    match snapshot::addresses(existing).index_of_first(addr@) {
        Some(i) => existing[i],
        None => newcomer(addr, pool_type, now),
    }
}

/// A pool after a lookup.
pub open spec fn merged_pool(
    existing: Seq<UpstreamInfo>,
    result: ResolveResult,
    pool_type: PoolType,
    now: Instant,
) -> Seq<UpstreamInfo> {
    match result {
        ResolveResult::Failed => existing,
        ResolveResult::Resolved(resolved) => Seq::new(
            resolved@.len(),
            |i: int| merged_entry(existing, resolved@[i], pool_type, now),
        ),
    }
}

/// The first upstream of the pool with the given address.
fn position_of(pool: &[UpstreamInfo], addr: &String) -> (found: Option<usize>)
    ensures
        match found {
            Some(i) => snapshot::addresses(pool@).index_of_first(addr@) == Some(i as int) && i < pool@.len(),
            None => snapshot::addresses(pool@).index_of_first(addr@) is None,
        },
{
    proof {
        snapshot::addresses(pool@).index_of_first_ensures(addr@);
    }
    let mut i: usize = 0;
    while i < pool.len()
        invariant
            i <= pool@.len(),
            forall|j: int| 0 <= j < i ==> #[trigger] snapshot::addresses(pool@)[j] != addr@,
        decreases pool@.len() - i,
    {
        if pool[i].addr == *addr {
            proof {
                let known = snapshot::addresses(pool@);
                known.index_of_first_ensures(addr@);
                assert(known[i as int] == addr@);
                assert(known.contains(addr@));
            }
            return Some(i);
        }
        assert(snapshot::addresses(pool@)[i as int] == pool@[i as int].addr@);
        i += 1;
    }
    proof {
        snapshot::addresses(pool@).index_of_first_ensures(addr@);
    }
    None
}

/// Apply a resolution result to a single pool. Newcomers are stamped with `now`.
pub fn merge_pool_at(
    existing: &[UpstreamInfo],
    result: &ResolveResult,
    pool_type: PoolType,
    now: Instant,
) -> (merged: Vec<UpstreamInfo>)
    ensures
        merged@ == merged_pool(existing@, *result, pool_type, now),
{
    match result {
        ResolveResult::Failed => copy_pool(existing),
        ResolveResult::Resolved(resolved) => {
            let mut merged: Vec<UpstreamInfo> = Vec::new();
            let mut i: usize = 0;
            while i < resolved.len()
                invariant
                    i <= resolved@.len(),
                    merged@.len() == i,
                    forall|j: int|
                        0 <= j < i ==> #[trigger] merged@[j] == merged_entry(
                            existing@,
                            resolved@[j],
                            pool_type,
                            now,
                        ),
                decreases resolved@.len() - i,
            {
                match position_of(existing, &resolved[i]) {
                    Some(k) => {
                        merged.push(existing[k].clone());
                    },
                    None => {
                        merged.push(
                            UpstreamInfo {
                                addr: resolved[i].clone(),
                                pool_type,
                                status: UpstreamStatus::Unknown,
                                queue_depth: 0,
                                live_workers: 0,
                                last_seen: now,
                            },
                        );
                    },
                }
                i += 1;
            }
            assert(merged@ =~= merged_pool(existing@, *result, pool_type, now));
            merged
        },
    }
}

/// Apply a resolution result to a single pool.
///
/// - [`ResolveResult::Failed`]: the pool stays as it is.
/// - [`ResolveResult::Resolved`]: the pool is rebuilt from the resolved
///   addresses. Addresses already in the pool keep their health state;
///   newly-discovered ones enter as [`UpstreamStatus::Unknown`];
///   vanished ones are dropped.
pub fn merge_pool(existing: &[UpstreamInfo], result: &ResolveResult, pool_type: PoolType) -> (merged:
    Vec<UpstreamInfo>)
    ensures
        exists|now: Instant| merged@ == #[trigger] merged_pool(existing@, *result, pool_type, now),
{
    let stamp = now();
    merge_pool_at(existing, result, pool_type, stamp)
}

/// `next` is `current` after both lookups, at `now`.
pub open spec fn is_merged(
    current: PoolSnapshot,
    gpu_result: ResolveResult,
    cpu_result: ResolveResult,
    now: Instant,
    next: PoolSnapshot,
) -> bool {
    &&& next.gpu@ == merged_pool(current.gpu@, gpu_result, PoolType::Gpu, now)
    &&& next.cpu@ == merged_pool(current.cpu@, cpu_result, PoolType::Cpu, now)
    &&& next.updated_at == now
}

/// Merge newly-resolved addresses with the existing snapshot, at `now`.
pub fn merge_at(
    current: &PoolSnapshot,
    gpu_result: &ResolveResult,
    cpu_result: &ResolveResult,
    now: Instant,
) -> (next: PoolSnapshot)
    ensures
        is_merged(*current, *gpu_result, *cpu_result, now, next),
{
    PoolSnapshot {
        gpu: merge_pool_at(current.gpu.as_slice(), gpu_result, PoolType::Gpu, now),
        cpu: merge_pool_at(current.cpu.as_slice(), cpu_result, PoolType::Cpu, now),
        updated_at: now,
    }
}

/// Merge newly-resolved addresses with the existing snapshot.
pub fn merge(
    current: &PoolSnapshot,
    gpu_result: &ResolveResult,
    cpu_result: &ResolveResult,
) -> (next: PoolSnapshot)
    ensures
        is_merged(*current, *gpu_result, *cpu_result, next.updated_at, next),
{
    let stamp = now();
    merge_at(current, gpu_result, cpu_result, stamp)
}

/// Merge newly-resolved addresses into the shared pools. Returns the snapshot
/// that was there and the one that took its place.
pub fn refresh(
    pool: &SharedPool,
    gpu_result: &ResolveResult,
    cpu_result: &ResolveResult,
) -> (change: (Arc<PoolSnapshot>, Arc<PoolSnapshot>))
    ensures
        change.0.is_pure(),
        change.1.is_pure(),
        shared::was_held(*pool, *change.0),
        shared::was_stored(*pool, *change.1),
        is_merged(*change.0, *gpu_result, *cpu_result, change.1.updated_at, *change.1),
{
    let current = pool.current();
    let next = merge(&current, gpu_result, cpu_result);
    proof {
        discovery_keeps_pool_type(current.gpu@, *gpu_result, PoolType::Gpu, next.updated_at);
        discovery_keeps_pool_type(current.cpu@, *cpu_result, PoolType::Cpu, next.updated_at);
    }
    let stored = pool.publish(Arc::new(next));
    (current, stored)
}

/// The wait after the first refresh that leaves a pool without addresses.
pub fn initial_retry_interval() -> (wait: Duration)
    ensures
        wait@ == initial_retry_nanos(),
{
    Duration::from_secs(INITIAL_RETRY_SECS)
}

/// The first retry wait in nanoseconds.
pub open spec fn initial_retry_nanos() -> nat {
    2_000_000_000
}

/// The smaller of two numbers.
pub open spec fn least(a: nat, b: nat) -> nat {
    if a <= b {
        a
    } else {
        b
    }
}

/// The wait before the next refresh, all spans in nanoseconds.
pub open spec fn next_wait(previous: nat, was_healthy: bool, is_healthy: bool, max: nat) -> nat {
    let initial = least(initial_retry_nanos(), max);
    let doubled = least(2 * previous, max);
    if is_healthy {
        max
    } else if was_healthy {
        initial
    } else if doubled >= initial {
        doubled
    } else {
        initial
    }
}

/// Compute the duration the discovery loop should sleep before the next
/// refresh attempt.
///
/// - `previous` is the sleep before the iteration that just completed (zero on
///   the very first call).
/// - `was_healthy` and `is_healthy` say whether the iteration before it and
///   the iteration itself left both pools with addresses.
/// - `max` is the configured refresh interval, and the ceiling of the backoff.
pub fn compute_next_interval(
    previous: Duration,
    was_healthy: bool,
    is_healthy: bool,
    max: Duration,
) -> (wait: Duration)
    ensures
        wait@ == next_wait(previous@, was_healthy, is_healthy, max@),
{
    let initial = initial_retry_interval().shorter(max);
    if is_healthy {
        max
    } else if was_healthy {
        initial
    } else {
        previous.saturating_double().shorter(max).longer(initial)
    }
}

/// A change of the discovery loop's health, worth a log line.
#[derive(Debug, Clone, Copy, PartialEq, Eq, Structural)]
pub enum Transition {
    /// Nothing changed.
    Unchanged,
    /// Both pools have addresses again.
    Recovered,
    /// A pool has no addresses any more.
    Degraded,
}

/// The discovery loop's memory between refreshes.
#[derive(Debug, Clone, Copy, PartialEq, Eq, Structural)]
pub struct Discovery {
    /// How long to sleep before the next refresh.
    pub sleep_for: Duration,
    /// Whether the last refresh left both pools with addresses.
    pub last_healthy: bool,
}

impl Discovery {
    /// The loop before its first refresh: refresh at once, expecting to find
    /// both pools populated.
    pub fn new() -> (discovery: Self)
        ensures
            discovery.sleep_for@ == 0,
            discovery.last_healthy,
    {
        Discovery { sleep_for: Duration::zero(), last_healthy: true }
    }

    /// Take in the outcome of a refresh: how long to sleep before the next
    /// one, and whether the loop's health changed.
    pub fn observe(
        &mut self,
        gpu_result: &ResolveResult,
        cpu_result: &ResolveResult,
        max: Duration,
    ) -> (change: Transition)
        ensures
            final(self).last_healthy == (gpu_result.populated() && cpu_result.populated()),
            final(self).sleep_for@ == next_wait(
                old(self).sleep_for@,
                old(self).last_healthy,
                gpu_result.populated() && cpu_result.populated(),
                max@,
            ),
            change == health_change(
                old(self).last_healthy,
                gpu_result.populated() && cpu_result.populated(),
            ),
    {
        let healthy = gpu_result.has_addrs() && cpu_result.has_addrs();
        let change = if healthy == self.last_healthy {
            Transition::Unchanged
        } else if healthy {
            Transition::Recovered
        } else {
            Transition::Degraded
        };
        self.sleep_for = compute_next_interval(self.sleep_for, self.last_healthy, healthy, max);
        self.last_healthy = healthy;
        change
    }
}

/// The change from one health to the next.
pub open spec fn health_change(was_healthy: bool, is_healthy: bool) -> Transition {
    if was_healthy == is_healthy {
        Transition::Unchanged
    } else if is_healthy {
        Transition::Recovered
    } else {
        Transition::Degraded
    }
}

/// A failed lookup leaves the pool as it was.
pub proof fn failed_lookup_preserves_pool(
    existing: Seq<UpstreamInfo>,
    pool_type: PoolType,
    now: Instant,
)
    ensures
        merged_pool(existing, ResolveResult::Failed, pool_type, now) == existing,
{
}

/// A successful lookup leaves exactly the resolved addresses in the pool, in
/// their order: none stays that was not resolved, and an empty answer empties
/// the pool.
pub proof fn successful_lookup_sets_membership(
    existing: Seq<UpstreamInfo>,
    resolved: Vec<String>,
    pool_type: PoolType,
    now: Instant,
)
    ensures
        snapshot::addresses(
            merged_pool(existing, ResolveResult::Resolved(resolved), pool_type, now),
        ) == resolved@.map_values(|a: String| a@),
{
    let merged = merged_pool(existing, ResolveResult::Resolved(resolved), pool_type, now);
    let known = snapshot::addresses(existing);
    assert forall|i: int| 0 <= i < resolved@.len() implies #[trigger] merged[i].addr@
        == resolved@[i]@ by {
        known.index_of_first_ensures(resolved@[i]@);
    }
    assert(snapshot::addresses(merged) =~= resolved@.map_values(|a: String| a@));
}

/// An upstream that a successful lookup finds again keeps all that was known
/// of it; one that it finds for the first time is unknown, with an empty
/// queue and no workers.
pub proof fn lookup_keeps_health_of_known_upstreams(
    existing: Seq<UpstreamInfo>,
    resolved: Vec<String>,
    pool_type: PoolType,
    now: Instant,
    i: int,
)
    requires
        0 <= i < resolved@.len(),
    ensures
        ({
            let merged = merged_pool(existing, ResolveResult::Resolved(resolved), pool_type, now);
            let known = snapshot::addresses(existing);
            &&& known.contains(resolved@[i]@) ==> existing.contains(merged[i])
            &&& !known.contains(resolved@[i]@) ==> merged[i] == newcomer(
                resolved@[i],
                pool_type,
                now,
            )
        }),
{
    let known = snapshot::addresses(existing);
    known.index_of_first_ensures(resolved@[i]@);
    if let Some(k) = known.index_of_first(resolved@[i]@) {
        assert(existing[k] == merged_entry(existing, resolved@[i], pool_type, now));
    }
}

/// A lookup that returns the addresses the pool already has changes nothing.
pub proof fn same_addresses_change_nothing(
    existing: Seq<UpstreamInfo>,
    resolved: Vec<String>,
    pool_type: PoolType,
    now: Instant,
)
    requires
        snapshot::addresses(existing).no_duplicates(),
        resolved@.map_values(|a: String| a@) == snapshot::addresses(existing),
    ensures
        merged_pool(existing, ResolveResult::Resolved(resolved), pool_type, now) == existing,
{
    let known = snapshot::addresses(existing);
    let texts = resolved@.map_values(|a: String| a@);
    assert(texts.len() == resolved@.len());
    assert forall|i: int| 0 <= i < existing.len() implies merged_entry(
        existing,
        #[trigger] resolved@[i],
        pool_type,
        now,
    ) == existing[i] by {
        assert(texts[i] == resolved@[i]@);
        known.index_of_first_ensures(resolved@[i]@);
        assert(known[i] == resolved@[i]@);
        assert(known.contains(resolved@[i]@));
    }
    assert(merged_pool(existing, ResolveResult::Resolved(resolved), pool_type, now) =~= existing);
}

/// Merging the same lookup twice is merging it once.
pub proof fn merge_is_idempotent(
    existing: Seq<UpstreamInfo>,
    result: ResolveResult,
    pool_type: PoolType,
    now: Instant,
    later: Instant,
)
    ensures
        snapshot::same_pool(
            merged_pool(merged_pool(existing, result, pool_type, now), result, pool_type, later),
            merged_pool(existing, result, pool_type, now),
        ),
{
    if let ResolveResult::Resolved(resolved) = result {
        let once = merged_pool(existing, result, pool_type, now);
        let twice = merged_pool(once, result, pool_type, later);
        let known = snapshot::addresses(once);
        successful_lookup_sets_membership(existing, resolved, pool_type, now);
        let texts = resolved@.map_values(|a: String| a@);
        assert forall|i: int| 0 <= i < resolved@.len() implies snapshot::same_upstream(
            #[trigger] twice[i],
            once[i],
        ) by {
            assert(texts[i] == resolved@[i]@);
            known.index_of_first_ensures(resolved@[i]@);
            assert(known[i] == resolved@[i]@);
            assert(known.contains(resolved@[i]@));
            let k = known.index_of_first(resolved@[i]@)->0;
            assert(texts[k] == resolved@[k]@);
            assert(resolved@[k]@ == resolved@[i]@);
            snapshot::addresses(existing).index_of_first_ensures(resolved@[i]@);
        }
    }
}

/// Discovery opens no route: an upstream that is routable after a lookup was
/// in the pool, in the same state, before it.
pub proof fn discovery_opens_no_route(
    existing: Seq<UpstreamInfo>,
    result: ResolveResult,
    pool_type: PoolType,
    now: Instant,
    u: UpstreamInfo,
)
    requires
        merged_pool(existing, result, pool_type, now).contains(u),
        policy::routable(u),
    ensures
        existing.contains(u),
{
    if let ResolveResult::Resolved(resolved) = result {
        let merged = merged_pool(existing, result, pool_type, now);
        let i = choose|i: int| 0 <= i < merged.len() && merged[i] == u;
        snapshot::addresses(existing).index_of_first_ensures(resolved@[i]@);
    }
}

/// Discovery keeps pools pure: when every upstream of a pool is of the
/// pool's type, so is every upstream after a lookup.
pub proof fn discovery_keeps_pool_type(
    existing: Seq<UpstreamInfo>,
    result: ResolveResult,
    pool_type: PoolType,
    now: Instant,
)
    requires
        forall|i: int| 0 <= i < existing.len() ==> (#[trigger] existing[i]).pool_type == pool_type,
    ensures
        forall|i: int|
            0 <= i < merged_pool(existing, result, pool_type, now).len() ==> (
            #[trigger] merged_pool(existing, result, pool_type, now)[i]).pool_type == pool_type,
{
    if let ResolveResult::Resolved(resolved) = result {
        let merged = merged_pool(existing, result, pool_type, now);
        assert forall|i: int| 0 <= i < merged.len() implies (#[trigger] merged[i]).pool_type
            == pool_type by {
            snapshot::addresses(existing).index_of_first_ensures(resolved@[i]@);
        }
    }
}

/// No wait is longer than the refresh interval, and none is shorter than the
/// first retry wait unless the refresh interval is.
pub proof fn wait_is_bounded(previous: nat, was_healthy: bool, is_healthy: bool, max: nat)
    ensures
        least(initial_retry_nanos(), max) <= next_wait(previous, was_healthy, is_healthy, max)
            <= max,
{
}

/// The wait after `failures` refreshes in a row that left a pool without
/// addresses, counted from a loop that was healthy and had waited `previous`.
pub open spec fn wait_after_failures(previous: nat, failures: nat, max: nat) -> nat
    decreases failures,
{
    if failures == 0 {
        previous
    } else {
        next_wait(
            wait_after_failures(previous, (failures - 1) as nat, max),
            failures == 1,
            false,
            max,
        )
    }
}

/// Whatever the loop waited before, the waits of an outage start at two
/// seconds and double each time, up to the refresh interval.
pub proof fn outage_backs_off_exponentially(previous: nat, failures: nat, max: nat)
    requires
        failures > 0,
    ensures
        wait_after_failures(previous, failures, max) == least(
            initial_retry_nanos() * vstd::arithmetic::power2::pow2((failures - 1) as nat),
            max,
        ),
    decreases failures,
{
    let scale = vstd::arithmetic::power2::pow2((failures - 1) as nat);
    if failures == 1 {
        vstd::arithmetic::power2::lemma2_to64();
    } else {
        outage_backs_off_exponentially(previous, (failures - 1) as nat, max);
        let half = vstd::arithmetic::power2::pow2((failures - 2) as nat);
        vstd::arithmetic::power2::lemma_pow2_unfold((failures - 1) as nat);
        vstd::arithmetic::power2::lemma_pow2_pos((failures - 2) as nat);
        assert(scale == 2 * half);
    }
}

/// One healthy refresh ends an outage: the loop waits the refresh interval,
/// and the next failure starts over at the first retry wait.
pub proof fn recovery_resets_backoff(previous: nat, was_healthy: bool, max: nat)
    ensures
        next_wait(previous, was_healthy, true, max) == max,
        next_wait(next_wait(previous, was_healthy, true, max), true, false, max) == least(
            initial_retry_nanos(),
            max,
        ),
{
}

/// A successful lookup leaves one upstream per address, in the order of the
/// addresses. Under an address that was known stands the first upstream that
/// was known under it, just as it was known.
pub proof fn known_upstreams_are_kept(
    existing: Seq<UpstreamInfo>,
    resolved: Vec<String>,
    pool_type: PoolType,
    now: Instant,
    i: int,
    k: int,
)
    requires
        0 <= i < resolved@.len(),
        0 <= k < existing.len(),
        existing[k].addr@ == resolved@[i]@,
        forall|j: int| 0 <= j < k ==> (#[trigger] existing[j]).addr@ != resolved@[i]@,
    ensures
        ({
            let merged = merged_pool(existing, ResolveResult::Resolved(resolved), pool_type, now);
            &&& merged.len() == resolved@.len()
            &&& merged[i] == existing[k]
        }),
{
    let known = snapshot::addresses(existing);
    let addr = resolved@[i]@;
    known.index_of_first_ensures(addr);
    assert(known[k] == addr);
    assert(known.contains(addr));
    let first = known.index_of_first(addr)->0;
    assert(known[first] == existing[first].addr@);
}

/// Under an address that was not known stands an upstream of which nothing is
/// known yet: an unknown one with an empty queue and no workers, of the pool's
/// type, seen now.
pub proof fn newcomers_are_unknown(
    existing: Seq<UpstreamInfo>,
    resolved: Vec<String>,
    pool_type: PoolType,
    now: Instant,
    i: int,
)
    requires
        0 <= i < resolved@.len(),
        forall|j: int| 0 <= j < existing.len() ==> (#[trigger] existing[j]).addr@ != resolved@[i]@,
    ensures
        ({
            let merged = merged_pool(existing, ResolveResult::Resolved(resolved), pool_type, now);
            &&& merged.len() == resolved@.len()
            &&& merged[i].addr@ == resolved@[i]@
            &&& merged[i].pool_type == pool_type
            &&& merged[i].status == UpstreamStatus::Unknown
            &&& merged[i].queue_depth == 0
            &&& merged[i].live_workers == 0
            &&& merged[i].last_seen == now
        }),
{
    let known = snapshot::addresses(existing);
    let addr = resolved@[i]@;
    known.index_of_first_ensures(addr);
    if known.contains(addr) {
        let j = known.index_of(addr);
        assert(existing[j].addr@ == addr);
    }
}

/// Each lookup is merged into its own pool, and the next snapshot is stamped
/// with the time of the merge.
pub proof fn lookups_reach_their_own_pools(
    current: PoolSnapshot,
    gpu_result: ResolveResult,
    cpu_result: ResolveResult,
    now: Instant,
    next: PoolSnapshot,
)
    requires
        is_merged(current, gpu_result, cpu_result, now, next),
    ensures
        next.gpu@ == merged_pool(current.gpu@, gpu_result, PoolType::Gpu, now),
        next.cpu@ == merged_pool(current.cpu@, cpu_result, PoolType::Cpu, now),
        gpu_result is Failed ==> next.gpu@ == current.gpu@,
        cpu_result is Failed ==> next.cpu@ == current.cpu@,
        gpu_result matches ResolveResult::Resolved(addrs) ==> next.gpu@.len() == addrs@.len(),
        cpu_result matches ResolveResult::Resolved(addrs) ==> next.cpu@.len() == addrs@.len(),
        next.updated_at == now,
{
}

/// A lookup is good exactly when it succeeded with an address, and the loop's
/// health changes for the better or for the worse, or stays.
pub proof fn health_of_lookups(addrs: Vec<String>, was_healthy: bool)
    ensures
        ResolveResult::Resolved(addrs).populated() <==> addrs@.len() >= 1,
        !ResolveResult::Failed.populated(),
        health_change(was_healthy, was_healthy) == Transition::Unchanged,
        health_change(false, true) == Transition::Recovered,
        health_change(true, false) == Transition::Degraded,
{
}

/// The wait before the next refresh, in nanoseconds. It is the refresh interval
/// while both pools have addresses; two seconds after the refresh that lost
/// them; then twice the wait before, at least two seconds. It is never longer
/// than the refresh interval.
pub proof fn waits_double_from_two_seconds(previous: nat, max: nat)
    ensures
        next_wait(previous, true, true, max) == max,
        next_wait(previous, false, true, max) == max,
        max >= 2_000_000_000 ==> next_wait(previous, true, false, max) == 2_000_000_000,
        max < 2_000_000_000 ==> next_wait(previous, true, false, max) == max,
        2 * previous >= max ==> next_wait(previous, false, false, max) == max,
        2_000_000_000 <= 2 * previous < max ==> next_wait(previous, false, false, max) == 2
            * previous,
        2 * previous < 2_000_000_000 <= max ==> next_wait(previous, false, false, max)
            == 2_000_000_000,
        2 * previous < max < 2_000_000_000 ==> next_wait(previous, false, false, max) == max,
        initial_retry_nanos() == 2_000_000_000,
{
}

/// A lookup's outcome is told by how many addresses it brought, in decimal, or
/// by its failure.
pub proof fn lookups_are_described(addrs: Vec<String>)
    requires
        addrs@.len() <= u64::MAX,
    ensures
        resolve_text(ResolveResult::Resolved(addrs)) == "ok("@ + text::decimal(addrs@.len())
            + ")"@,
        text::written_u64(text::decimal(addrs@.len())) == Some(addrs@.len() as u64),
        resolve_text(ResolveResult::Failed) == "failed"@,
{
    text::written_number_reads_back(addrs@.len() as u64);
}

/// Every name is looked up with the port that upstreams listen on.
pub proof fn upstreams_listen_on_one_port(dns_name: Seq<char>)
    ensures
        dns_name + ":"@ + text::decimal(UPSTREAM_PORT as nat) == dns_name + ":8081"@,
{
    reveal_strlit(":");
    reveal_strlit(":8081");
    reveal_with_fuel(text::decimal, 4);
    assert(":"@ + text::decimal(8081) =~= ":8081"@);
    assert(dns_name + ":"@ + text::decimal(8081) =~= dns_name + (":"@ + text::decimal(8081)));
}

}
