//! Per-upstream health polling.
//!
//! Every known upstream is asked for its `/health`. What it answers becomes
//! its status, queue depth and live worker count; an upstream that does not
//! answer is marked as failed.

use std::sync::Arc;
use std::time::Instant;

use vstd::prelude::*;

use crate::router::policy;
use crate::text::join;
use crate::upstream::shared;
use crate::upstream::shared::SharedPool;
use crate::upstream::snapshot;
use crate::upstream::snapshot::{
    now, PoolSnapshot, PoolType, UpstreamInfo, UpstreamScheme, UpstreamStatus,
};

verus! {

/// Seconds an upstream has to answer a health poll.
pub const POLL_TIMEOUT_SECS: u64 = 4;

/// Subset of an upstream's `/health` response that the router cares about.
#[derive(Debug)]
pub struct BgeMHealthResponse {
    /// The upstream's own word for its state.
    pub status: String,
    /// Its worker threads, if it says.
    pub workers: Option<WorkersField>,
    /// How many requests wait for a worker, if it says.
    pub queue_depth: Option<u32>,
}

/// The worker threads of an upstream.
#[derive(Debug, Clone, Copy, PartialEq, Eq, Structural)]
pub struct WorkersField {
    /// How many of them are alive.
    pub live: u32,
}

/// What came back from a health poll.
#[derive(Debug)]
pub enum HealthReply {
    /// The upstream answered over HTTP. `report` is the body of a successful
    /// answer, where it could be read.
    Answered { http_status: u16, report: Option<BgeMHealthResponse> },
    /// No connection, or no answer in time.
    Unreachable,
}

/// What a health poll says of one upstream.
#[derive(Debug)]
pub struct PollResult {
    /// The upstream's address.
    pub addr: String,
    /// Its status.
    pub status: UpstreamStatus,
    /// Its queue depth.
    pub queue_depth: u32,
    /// Its live workers.
    pub live_workers: u32,
    /// Whether the upstream answered the poll with success.
    pub succeeded: bool,
}

/// An HTTP status of the 2xx class.
pub open spec fn is_success(http_status: u16) -> bool {
    200 <= http_status < 300
}

/// The upstream answered the poll with a 2xx status.
pub open spec fn poll_succeeded(reply: HealthReply) -> bool {
    reply matches HealthReply::Answered { http_status, .. } && is_success(http_status)
}

/// The status that a reply gives an upstream.
pub open spec fn replied_status(reply: HealthReply) -> UpstreamStatus {
    match reply {
        HealthReply::Answered { http_status, report } => if !is_success(http_status) {
            UpstreamStatus::Fail
        } else {
            match report {
                Some(body) => UpstreamStatus::of_text(body.status@),
                None => UpstreamStatus::Unknown,
            }
        },
        HealthReply::Unreachable => UpstreamStatus::Fail,
    }
}

/// The body of a successful reply, where it could be read.
pub open spec fn readable_report(reply: HealthReply) -> Option<BgeMHealthResponse> {
    match reply {
        HealthReply::Answered { http_status, report } => if is_success(http_status) {
            report
        } else {
            None
        },
        HealthReply::Unreachable => None,
    }
}

/// The queue depth that a reply gives an upstream: zero unless it says.
pub open spec fn replied_depth(reply: HealthReply) -> u32 {
    match readable_report(reply) {
        Some(body) => match body.queue_depth {
            Some(depth) => depth,
            None => 0,
        },
        None => 0,
    }
}

/// The live workers that a reply gives an upstream: zero unless it says.
pub open spec fn replied_workers(reply: HealthReply) -> u32 {
    match readable_report(reply) {
        Some(body) => match body.workers {
            Some(workers) => workers.live,
            None => 0,
        },
        None => 0,
    }
}

/// Where to ask an upstream for its health.
pub fn health_url(scheme: UpstreamScheme, addr: &str) -> (url: String)
    ensures
        url@ == scheme.label() + "://"@ + addr@ + "/health"@,
{
    let prefix = join(scheme.as_str(), "://");
    let host = join(prefix.as_str(), addr);
    join(host.as_str(), "/health")
}

/// Whether an HTTP status is of the 2xx class.
pub fn is_success_status(http_status: u16) -> (success: bool)
    ensures
        success == is_success(http_status),
{
    200 <= http_status && http_status < 300
}

/// Read a reply to a health poll.
///
/// A reply outside the 2xx class, like no reply at all, marks the upstream as
/// failed; a 2xx reply whose body cannot be read leaves its status unknown.
pub fn poll_result(addr: String, reply: HealthReply) -> (result: PollResult)
    ensures
        result.addr == addr,
        result.status == replied_status(reply),
        result.queue_depth == replied_depth(reply),
        result.live_workers == replied_workers(reply),
        result.succeeded == poll_succeeded(reply),
{
    match reply {
        HealthReply::Answered { http_status, report } => {
            if !is_success_status(http_status) {
                return PollResult {
                    addr,
                    status: UpstreamStatus::Fail,
                    queue_depth: 0,
                    live_workers: 0,
                    succeeded: false,
                };
            }
            match report {
                Some(body) => {
                    let live_workers: u32 = match body.workers {
                        Some(workers) => workers.live,
                        None => 0,
                    };
                    PollResult {
                        addr,
                        status: UpstreamStatus::parse(body.status.as_str()),
                        queue_depth: body.queue_depth.unwrap_or(0),
                        live_workers,
                        succeeded: true,
                    }
                },
                None => PollResult {
                    addr,
                    status: UpstreamStatus::Unknown,
                    queue_depth: 0,
                    live_workers: 0,
                    succeeded: true,
                },
            }
        },
        HealthReply::Unreachable => PollResult {
            addr,
            status: UpstreamStatus::Fail,
            queue_depth: 0,
            live_workers: 0,
            succeeded: false,
        },
    }
}

/// Append the addresses of a pool.
fn push_addresses(targets: &mut Vec<String>, pool: &[UpstreamInfo])
    ensures
        final(targets)@ == old(targets)@ + pool@.map_values(|u: UpstreamInfo| u.addr),
{
    let ghost start = targets@;
    let ghost known = pool@.map_values(|u: UpstreamInfo| u.addr);
    let mut i: usize = 0;
    while i < pool.len()
        invariant
            i <= pool@.len(),
            known == pool@.map_values(|u: UpstreamInfo| u.addr),
            targets@ == start + known.take(i as int),
        decreases pool@.len() - i,
    {
        targets.push(pool[i].addr.clone());
        i += 1;
        assert(targets@ =~= start + known.take(i as int));
    }
    assert(known.take(pool@.len() as int) =~= known);
}

/// The addresses to poll: every upstream of the GPU pool, then every upstream
/// of the CPU pool.
pub fn poll_targets(current: &PoolSnapshot) -> (targets: Vec<String>)
    ensures
        targets@ == current.gpu@.map_values(|u: UpstreamInfo| u.addr) + current.cpu@.map_values(
            |u: UpstreamInfo| u.addr,
        ),
{
    let mut targets: Vec<String> = Vec::new();
    push_addresses(&mut targets, current.gpu.as_slice());
    push_addresses(&mut targets, current.cpu.as_slice());
    targets
}

/// The addresses that poll results speak of.
pub open spec fn polled(results: Seq<PollResult>) -> Seq<Seq<char>> {
    results.map_values(|r: PollResult| r.addr@)
}

/// An upstream after a poll that says `r` of it. A failed poll leaves the time
/// it was last seen as it was.
pub open spec fn with_result(u: UpstreamInfo, r: PollResult, now: Instant) -> UpstreamInfo {
    UpstreamInfo {
        addr: u.addr,
        pool_type: u.pool_type,
        status: r.status,
        queue_depth: r.queue_depth,
        live_workers: r.live_workers,
        last_seen: if r.succeeded {
            now
        } else {
            u.last_seen
        },
    }
}

/// An upstream after a round of polls: the first result for its address
/// counts; without one it stays as it is.
pub open spec fn updated_entry(u: UpstreamInfo, results: Seq<PollResult>, now: Instant) -> UpstreamInfo {
    match polled(results).index_of_first(u.addr@) {
        Some(k) => with_result(u, results[k], now),
        None => u,
    }
}

/// A pool after a round of polls.
pub open spec fn updated_pool(
    pool: Seq<UpstreamInfo>,
    results: Seq<PollResult>,
    now: Instant,
) -> Seq<UpstreamInfo> {
    pool.map_values(|u: UpstreamInfo| updated_entry(u, results, now))
}

/// The first result for the given address.
fn result_for(results: &[PollResult], addr: &String) -> (found: Option<usize>)
    ensures
        match found {
            Some(i) => polled(results@).index_of_first(addr@) == Some(i as int) && i
                < results@.len(),
            None => polled(results@).index_of_first(addr@) is None,
        },
{
    let ghost known = polled(results@);
    let mut i: usize = 0;
    while i < results.len()
        invariant
            i <= results@.len(),
            known == polled(results@),
            forall|j: int| 0 <= j < i ==> #[trigger] known[j] != addr@,
        decreases results@.len() - i,
    {
        if results[i].addr == *addr {
            proof {
                known.index_of_first_ensures(addr@);
                assert(known[i as int] == addr@);
                assert(known.contains(addr@));
            }
            return Some(i);
        }
        assert(known[i as int] == results@[i as int].addr@);
        i += 1;
    }
    proof {
        known.index_of_first_ensures(addr@);
    }
    None
}

/// Apply a round of poll results to one pool.
pub fn update_pool(pool: &[UpstreamInfo], results: &[PollResult], now: Instant) -> (updated: Vec<
    UpstreamInfo,
>)
    ensures
        updated@ == updated_pool(pool@, results@, now),
{
    let mut updated: Vec<UpstreamInfo> = Vec::new();
    let mut i: usize = 0;
    while i < pool.len()
        invariant
            i <= pool@.len(),
            updated@.len() == i,
            forall|j: int|
                0 <= j < i ==> #[trigger] updated@[j] == updated_entry(pool@[j], results@, now),
        decreases pool@.len() - i,
    {
        let u = &pool[i];
        match result_for(results, &u.addr) {
            Some(k) => {
                let r = &results[k];
                let last_seen = if r.succeeded {
                    now
                } else {
                    u.last_seen
                };
                updated.push(
                    UpstreamInfo {
                        addr: u.addr.clone(),
                        pool_type: u.pool_type,
                        status: r.status,
                        queue_depth: r.queue_depth,
                        live_workers: r.live_workers,
                        last_seen,
                    },
                );
            },
            None => {
                updated.push(u.clone());
            },
        }
        i += 1;
    }
    assert(updated@ =~= updated_pool(pool@, results@, now));
    updated
}

/// `next` is `current` after a round of polls, at `now`.
pub open spec fn is_updated(
    current: PoolSnapshot,
    results: Seq<PollResult>,
    now: Instant,
    next: PoolSnapshot,
) -> bool {
    &&& next.gpu@ == updated_pool(current.gpu@, results, now)
    &&& next.cpu@ == updated_pool(current.cpu@, results, now)
    &&& next.updated_at == now
}

/// Apply a round of poll results to both pools, at `now`.
pub fn apply_updates_at(current: &PoolSnapshot, results: &[PollResult], now: Instant) -> (next:
    PoolSnapshot)
    ensures
        is_updated(*current, results@, now, next),
{
    PoolSnapshot {
        gpu: update_pool(current.gpu.as_slice(), results, now),
        cpu: update_pool(current.cpu.as_slice(), results, now),
        updated_at: now,
    }
}

/// Apply a round of poll results to both pools.
pub fn apply_updates(current: &PoolSnapshot, results: &[PollResult]) -> (next: PoolSnapshot)
    ensures
        is_updated(*current, results@, next.updated_at, next),
{
    let stamp = now();
    apply_updates_at(current, results, stamp)
}

/// Apply a round of poll results to the shared pools. Returns the snapshot
/// that was there and the one that took its place.
///
/// The results are applied to the pools as they are now: an upstream that left
/// while it was being polled does not come back.
pub fn record_polls(pool: &SharedPool, results: &[PollResult]) -> (change: (
    Arc<PoolSnapshot>,
    Arc<PoolSnapshot>,
))
    ensures
        change.0.is_pure(),
        change.1.is_pure(),
        shared::was_held(*pool, *change.0),
        shared::was_stored(*pool, *change.1),
        is_updated(*change.0, results@, change.1.updated_at, *change.1),
{
    let current = pool.current();
    let next = apply_updates(&current, results);
    proof {
        polling_keeps_membership(current.gpu@, results@, next.updated_at);
        polling_keeps_membership(current.cpu@, results@, next.updated_at);
    }
    let stored = pool.publish(Arc::new(next));
    (current, stored)
}

/// Polling neither adds nor removes an upstream, nor moves one to another
/// pool.
pub proof fn polling_keeps_membership(
    pool: Seq<UpstreamInfo>,
    results: Seq<PollResult>,
    now: Instant,
)
    ensures
        snapshot::addresses(updated_pool(pool, results, now)) == snapshot::addresses(pool),
        forall|i: int|
            0 <= i < pool.len() ==> (#[trigger] updated_pool(pool, results, now)[i]).pool_type
                == pool[i].pool_type,
{
    assert(snapshot::addresses(updated_pool(pool, results, now)) =~= snapshot::addresses(pool));
}

/// An upstream that a round of polls says nothing of stays as it was.
pub proof fn unpolled_upstream_is_unchanged(u: UpstreamInfo, results: Seq<PollResult>, now: Instant)
    requires
        !polled(results).contains(u.addr@),
    ensures
        updated_entry(u, results, now) == u,
{
    polled(results).index_of_first_ensures(u.addr@);
}

/// A failed poll closes the route to an upstream at once: its status is
/// `Fail`, its counts are zero, and it was last seen when it was before.
pub proof fn failed_poll_closes_route(
    u: UpstreamInfo,
    reply: HealthReply,
    r: PollResult,
    now: Instant,
)
    requires
        !poll_succeeded(reply),
        r.status == replied_status(reply),
        r.queue_depth == replied_depth(reply),
        r.live_workers == replied_workers(reply),
        r.succeeded == poll_succeeded(reply),
    ensures
        with_result(u, r, now).status == UpstreamStatus::Fail,
        with_result(u, r, now).queue_depth == 0,
        with_result(u, r, now).live_workers == 0,
        with_result(u, r, now).last_seen == u.last_seen,
        !policy::routable(with_result(u, r, now)),
{
}

/// A successful poll alone decides whether an upstream is routable, whatever
/// its state was before: it is when it calls itself ok or warn, or when it is
/// loading or idle with live workers.
pub proof fn successful_poll_decides_route(
    u: UpstreamInfo,
    reply: HealthReply,
    r: PollResult,
    now: Instant,
)
    requires
        poll_succeeded(reply),
        r.status == replied_status(reply),
        r.queue_depth == replied_depth(reply),
        r.live_workers == replied_workers(reply),
        r.succeeded == poll_succeeded(reply),
    ensures
        with_result(u, r, now).last_seen == now,
        policy::routable(with_result(u, r, now)) <==> (readable_report(reply) matches Some(body) && {
            ||| body.status@ == "ok"@
            ||| body.status@ == "warn"@
            ||| (body.status@ == "loading"@ || body.status@ == "idle"@) && replied_workers(reply)
                > 0
        }),
{
    reveal_strlit("ok");
    reveal_strlit("warn");
    reveal_strlit("loading");
    reveal_strlit("idle");
    assert("loading"@.len() == 7 && "ok"@.len() == 2 && "warn"@.len() == 4 && "idle"@.len() == 4);
    assert("idle"@[0] != "warn"@[0]);
}

/// Applying the same results twice is applying them once.
pub proof fn update_is_idempotent(pool: Seq<UpstreamInfo>, results: Seq<PollResult>, now: Instant)
    ensures
        updated_pool(updated_pool(pool, results, now), results, now) == updated_pool(
            pool,
            results,
            now,
        ),
{
    assert(updated_pool(updated_pool(pool, results, now), results, now) =~= updated_pool(
        pool,
        results,
        now,
    ));
}

/// Whatever state an upstream is in, the first result that a round of polls has
/// for its address becomes its status, its queue depth and its live workers, and
/// it was last seen now where the poll succeeded. One that the poll found healthy
/// can be routed to, also when it had failed before.
pub proof fn poll_results_are_taken_over(
    pool: Seq<UpstreamInfo>,
    results: Seq<PollResult>,
    now: Instant,
    i: int,
    k: int,
)
    requires
        0 <= i < pool.len(),
        0 <= k < results.len(),
        results[k].addr@ == pool[i].addr@,
        forall|j: int| 0 <= j < k ==> (#[trigger] results[j]).addr@ != pool[i].addr@,
    ensures
        ({
            let updated = updated_pool(pool, results, now);
            &&& updated.len() == pool.len()
            &&& updated[i].addr == pool[i].addr
            &&& updated[i].pool_type == pool[i].pool_type
            &&& updated[i].status == results[k].status
            &&& updated[i].queue_depth == results[k].queue_depth
            &&& updated[i].live_workers == results[k].live_workers
            &&& results[k].succeeded ==> updated[i].last_seen == now
            &&& !results[k].succeeded ==> updated[i].last_seen == pool[i].last_seen
            &&& results[k].status == UpstreamStatus::Healthy ==> policy::routable(updated[i])
            &&& results[k].status == UpstreamStatus::Loading && results[k].live_workers > 0
                ==> policy::routable(updated[i])
            &&& results[k].status == UpstreamStatus::Fail || results[k].status
                == UpstreamStatus::Unknown ==> !policy::routable(updated[i])
        }),
{
    let known = polled(results);
    known.index_of_first_ensures(pool[i].addr@);
    assert(known[k] == pool[i].addr@);
    assert(known.contains(pool[i].addr@));
    let first = known.index_of_first(pool[i].addr@)->0;
    assert(known[first] == results[first].addr@);
}

/// An upstream whose address no result has stays as it was, in its place.
pub proof fn other_upstreams_stay(
    pool: Seq<UpstreamInfo>,
    results: Seq<PollResult>,
    now: Instant,
    i: int,
)
    requires
        0 <= i < pool.len(),
        forall|j: int| 0 <= j < results.len() ==> (#[trigger] results[j]).addr@ != pool[i].addr@,
    ensures
        updated_pool(pool, results, now).len() == pool.len(),
        updated_pool(pool, results, now)[i] == pool[i],
{
    let known = polled(results);
    known.index_of_first_ensures(pool[i].addr@);
    if known.contains(pool[i].addr@) {
        let j = known.index_of(pool[i].addr@);
        assert(results[j].addr@ == pool[i].addr@);
    }
}

/// An upstream that a poll found healthy brings its pool back into service: the
/// pool then has an upstream to pick, and a healthy one.
pub proof fn recovered_upstream_brings_its_pool_back(
    pool: Seq<UpstreamInfo>,
    results: Seq<PollResult>,
    now: Instant,
    pool_type: PoolType,
    i: int,
    k: int,
) -> (picked: int)
    requires
        0 <= i < pool.len(),
        0 <= k < results.len(),
        results[k].addr@ == pool[i].addr@,
        forall|j: int| 0 <= j < k ==> (#[trigger] results[j]).addr@ != pool[i].addr@,
        results[k].status == UpstreamStatus::Healthy,
    ensures
        0 <= picked < pool.len(),
        updated_pool(pool, results, now)[picked].status == UpstreamStatus::Healthy,
        updated_pool(pool, results, now)[picked].queue_depth <= results[k].queue_depth,
        policy::pool_target(updated_pool(pool, results, now), pool_type) == Some(
            (pool[picked].addr@, pool_type),
        ),
{
    poll_results_are_taken_over(pool, results, now, i, k);
    polling_keeps_membership(pool, results, now);
    let updated = updated_pool(pool, results, now);
    let picked = policy::healthy_upstream_is_picked(updated, pool_type, i);
    assert(snapshot::addresses(updated)[picked] == snapshot::addresses(pool)[picked]);
    picked
}

/// A round of polls is applied to both pools alike, and the next snapshot is
/// stamped with its time.
pub proof fn polls_reach_both_pools(
    current: PoolSnapshot,
    results: Seq<PollResult>,
    now: Instant,
    next: PoolSnapshot,
)
    requires
        is_updated(current, results, now, next),
    ensures
        next.gpu@ == updated_pool(current.gpu@, results, now),
        next.cpu@ == updated_pool(current.cpu@, results, now),
        next.gpu@.len() == current.gpu@.len(),
        next.cpu@.len() == current.cpu@.len(),
        next.updated_at == now,
{
}

/// What a reply to a health poll says: outside the 200s, and without a reply,
/// the upstream failed; inside them it has the state, the queue and the workers
/// that it reports, none of the latter two where it does not say, and an unknown
/// state where its report cannot be read.
pub proof fn replies_are_read(http_status: u16, report: Option<BgeMHealthResponse>)
    ensures
        ({
            let reply = HealthReply::Answered { http_status, report };
            &&& http_status < 200 || http_status > 299 ==> {
                &&& !poll_succeeded(reply)
                &&& replied_status(reply) == UpstreamStatus::Fail
                &&& replied_depth(reply) == 0
                &&& replied_workers(reply) == 0
            }
            &&& 200 <= http_status <= 299 ==> poll_succeeded(reply)
            &&& 200 <= http_status <= 299 && report is None ==> {
                &&& replied_status(reply) == UpstreamStatus::Unknown
                &&& replied_depth(reply) == 0
                &&& replied_workers(reply) == 0
            }
            &&& 200 <= http_status <= 299 ==> (report matches Some(body) ==> {
                &&& body.status@ == "ok"@ || body.status@ == "warn"@ ==> replied_status(reply)
                    == UpstreamStatus::Healthy
                &&& body.status@ == "loading"@ || body.status@ == "idle"@ ==> replied_status(reply)
                    == UpstreamStatus::Loading
                &&& body.status@ == "fail"@ ==> replied_status(reply) == UpstreamStatus::Fail
                &&& body.status@ != "ok"@ && body.status@ != "warn"@ && body.status@ != "loading"@
                    && body.status@ != "idle"@ && body.status@ != "fail"@ ==> replied_status(reply)
                    == UpstreamStatus::Unknown
                &&& body.queue_depth is None ==> replied_depth(reply) == 0
                &&& body.queue_depth matches Some(depth) ==> replied_depth(reply) == depth
                &&& body.workers is None ==> replied_workers(reply) == 0
                &&& body.workers matches Some(workers) ==> replied_workers(reply) == workers.live
            })
        }),
        !poll_succeeded(HealthReply::Unreachable),
        replied_status(HealthReply::Unreachable) == UpstreamStatus::Fail,
        replied_depth(HealthReply::Unreachable) == 0,
        replied_workers(HealthReply::Unreachable) == 0,
        is_success(http_status) <==> 200 <= http_status <= 299,
{
    if let Some(body) = report {
        snapshot::status_words(body.status@);
    }
}

}
