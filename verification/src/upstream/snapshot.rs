//! The state of the upstream pools at one point in time.
//!
//! A [`PoolSnapshot`] is never changed in place: discovery and health polling
//! build the next one from the current one.

use std::time::Instant;

use vstd::prelude::*;

use crate::text::text_eq;

verus! {

/// `std::time::Instant`, carried through and never looked into.
#[verifier::external_type_specification]
#[verifier::external_body]
pub struct ExInstant(std::time::Instant);

/// Calls `std::time::Instant::now`. Nothing is claimed of the instant.
#[verifier::external_body]
pub(crate) fn now() -> Instant {
    Instant::now()
}

/// URL scheme used when contacting upstream instances.
#[derive(Debug, Clone, Copy, PartialEq, Eq, Structural)]
pub enum UpstreamScheme {
    /// Plain HTTP.
    Http,
    /// HTTPS.
    Https,
}

impl UpstreamScheme {
    /// The scheme as it stands in a URL.
    pub open spec fn label(self) -> Seq<char> {
        match self {
            UpstreamScheme::Http => "http"@,
            UpstreamScheme::Https => "https"@,
        }
    }

    /// Returns the scheme string (`"http"` or `"https"`).
    #[must_use]
    pub fn as_str(self) -> (label: &'static str)
        ensures
            label@ == self.label(),
    {
        match self {
            UpstreamScheme::Http => "http",
            UpstreamScheme::Https => "https",
        }
    }
}

/// Which class of hardware the upstream runs on.
#[derive(Debug, Clone, Copy, PartialEq, Eq, Structural)]
pub enum PoolType {
    /// GPU worker.
    Gpu,
    /// CPU worker.
    Cpu,
}

impl PoolType {
    /// The pool's name in headers and logs.
    pub open spec fn label(self) -> Seq<char> {
        match self {
            PoolType::Gpu => "gpu"@,
            PoolType::Cpu => "cpu"@,
        }
    }

    /// Returns a lowercase string label suitable for response headers and logs.
    #[must_use]
    pub fn as_str(self) -> (label: &'static str)
        ensures
            label@ == self.label(),
    {
        match self {
            PoolType::Gpu => "gpu",
            PoolType::Cpu => "cpu",
        }
    }
}

/// Health status of a single upstream, derived from its `/health` response.
#[derive(Debug, Clone, Copy, PartialEq, Eq, Structural)]
pub enum UpstreamStatus {
    /// Upstream is healthy and serving requests (`status=ok` or `status=warn`).
    Healthy,
    /// Upstream is initialising (`status=loading` or `status=idle`).
    Loading,
    /// All workers have exited (`status=fail`), or the upstream did not answer.
    Fail,
    /// No health response received yet, or the response could not be read.
    Unknown,
}

impl UpstreamStatus {
    /// What a `status` field of an upstream's health response stands for.
    pub open spec fn of_text(s: Seq<char>) -> Self {
        if s == "ok"@ || s == "warn"@ {
            UpstreamStatus::Healthy
        } else if s == "loading"@ || s == "idle"@ {
            UpstreamStatus::Loading
        } else if s == "fail"@ {
            UpstreamStatus::Fail
        } else {
            UpstreamStatus::Unknown
        }
    }

    /// The status's name in reports.
    pub open spec fn label(self) -> Seq<char> {
        match self {
            UpstreamStatus::Healthy => "ok"@,
            UpstreamStatus::Loading => "loading"@,
            UpstreamStatus::Fail => "fail"@,
            UpstreamStatus::Unknown => "unknown"@,
        }
    }

    /// Parse a `status` field from an upstream's `/health` JSON response.
    ///
    /// `"warn"` counts as `Healthy`: some workers exited, but the service still
    /// accepts requests.
    #[must_use]
    pub fn parse(s: &str) -> (status: Self)
        ensures
            status == Self::of_text(s@),
    {
        if text_eq(s, "ok") || text_eq(s, "warn") {
            UpstreamStatus::Healthy
        } else if text_eq(s, "loading") || text_eq(s, "idle") {
            UpstreamStatus::Loading
        } else if text_eq(s, "fail") {
            UpstreamStatus::Fail
        } else {
            UpstreamStatus::Unknown
        }
    }

    /// Returns the status's lowercase name.
    #[must_use]
    pub fn as_str(self) -> (label: &'static str)
        ensures
            label@ == self.label(),
    {
        match self {
            UpstreamStatus::Healthy => "ok",
            UpstreamStatus::Loading => "loading",
            UpstreamStatus::Fail => "fail",
            UpstreamStatus::Unknown => "unknown",
        }
    }
}

/// All known information about a single upstream instance.
#[derive(Debug)]
pub struct UpstreamInfo {
    /// TCP address of the upstream, written `ip:port`. Two upstreams are the
    /// same when their addresses read the same.
    pub addr: String,
    /// Whether this upstream is in the GPU or CPU pool.
    pub pool_type: PoolType,
    /// Last observed health status.
    pub status: UpstreamStatus,
    /// Number of requests queued on the upstream.
    pub queue_depth: u32,
    /// Number of live worker threads on the upstream.
    pub live_workers: u32,
    /// When the last successful health poll was completed.
    pub last_seen: Instant,
}

impl Clone for UpstreamInfo {
    fn clone(&self) -> (copy: Self)
        ensures
            copy == *self,
    {
        UpstreamInfo {
            addr: self.addr.clone(),
            pool_type: self.pool_type,
            status: self.status,
            queue_depth: self.queue_depth,
            live_workers: self.live_workers,
            last_seen: self.last_seen,
        }
    }
}

/// The addresses of a pool's upstreams, in pool order.
pub open spec fn addresses(pool: Seq<UpstreamInfo>) -> Seq<Seq<char>> {
    pool.map_values(|u: UpstreamInfo| u.addr@)
}

/// The same is known of two upstreams.
pub open spec fn same_upstream(a: UpstreamInfo, b: UpstreamInfo) -> bool {
    &&& a.addr@ == b.addr@
    &&& a.pool_type == b.pool_type
    &&& a.status == b.status
    &&& a.queue_depth == b.queue_depth
    &&& a.live_workers == b.live_workers
    &&& a.last_seen == b.last_seen
}

/// Two pools hold the same upstreams in the same order.
pub open spec fn same_pool(a: Seq<UpstreamInfo>, b: Seq<UpstreamInfo>) -> bool {
    &&& a.len() == b.len()
    &&& forall|i: int| 0 <= i < a.len() ==> same_upstream(#[trigger] a[i], b[i])
}

/// The state of both upstream pools at one point in time.
#[derive(Debug)]
pub struct PoolSnapshot {
    /// All GPU upstreams.
    pub gpu: Vec<UpstreamInfo>,
    /// All CPU upstreams.
    pub cpu: Vec<UpstreamInfo>,
    /// When this snapshot was created.
    pub updated_at: Instant,
}

impl PoolSnapshot {
    /// Neither pool has an upstream.
    pub open spec fn holds_nothing(self) -> bool {
        self.gpu@.len() == 0 && self.cpu@.len() == 0
    }

    /// Every upstream stands in the pool of its type.
    pub open spec fn is_pure(self) -> bool {
        &&& forall|i: int|
            0 <= i < self.gpu@.len() ==> (#[trigger] self.gpu@[i]).pool_type == PoolType::Gpu
        &&& forall|i: int|
            0 <= i < self.cpu@.len() ==> (#[trigger] self.cpu@[i]).pool_type == PoolType::Cpu
    }
}

/// A copy of a pool.
pub fn copy_pool(pool: &[UpstreamInfo]) -> (copy: Vec<UpstreamInfo>)
    ensures
        copy@ == pool@,
{
    let mut copy: Vec<UpstreamInfo> = Vec::new();
    let mut i: usize = 0;
    while i < pool.len()
        invariant
            i <= pool@.len(),
            copy@ == pool@.take(i as int),
        decreases pool@.len() - i,
    {
        copy.push(pool[i].clone());
        i += 1;
        assert(copy@ =~= pool@.take(i as int));
    }
    assert(pool@.take(pool@.len() as int) =~= pool@);
    copy
}

impl Clone for PoolSnapshot {
    fn clone(&self) -> (copy: Self)
        ensures
            copy.gpu@ == self.gpu@,
            copy.cpu@ == self.cpu@,
            copy.updated_at == self.updated_at,
    {
        PoolSnapshot {
            gpu: copy_pool(self.gpu.as_slice()),
            cpu: copy_pool(self.cpu.as_slice()),
            updated_at: self.updated_at,
        }
    }
}

impl Default for PoolSnapshot {
    fn default() -> (snapshot: Self)
        ensures
            snapshot.gpu@.len() == 0,
            snapshot.cpu@.len() == 0,
    {
        PoolSnapshot { gpu: Vec::new(), cpu: Vec::new(), updated_at: now() }
    }
}

/// An upstream is healthy exactly when it calls itself ok or warn, loading
/// exactly when it says loading or idle, failed exactly when it says fail, and
/// unknown under any other word.
pub proof fn status_words(word: Seq<char>)
    ensures
        UpstreamStatus::of_text(word) == UpstreamStatus::Healthy <==> word == "ok"@ || word
            == "warn"@,
        UpstreamStatus::of_text(word) == UpstreamStatus::Loading <==> word == "loading"@ || word
            == "idle"@,
        UpstreamStatus::of_text(word) == UpstreamStatus::Fail <==> word == "fail"@,
        UpstreamStatus::of_text(word) == UpstreamStatus::Unknown <==> word != "ok"@ && word
            != "warn"@ && word != "loading"@ && word != "idle"@ && word != "fail"@,
{
    reveal_strlit("ok");
    reveal_strlit("warn");
    reveal_strlit("loading");
    reveal_strlit("idle");
    reveal_strlit("fail");
    assert("loading"@.len() == 7 && "ok"@.len() == 2);
    assert("warn"@.len() == 4 && "idle"@.len() == 4 && "fail"@.len() == 4);
    assert("idle"@[0] == 'i' && "warn"@[0] == 'w' && "fail"@[0] == 'f');
}

/// Every status is read back from the name that reports give it.
pub proof fn reported_status_reads_back(status: UpstreamStatus)
    ensures
        UpstreamStatus::of_text(status.label()) == status,
{
    reveal_strlit("unknown");
    reveal_strlit("loading");
    reveal_strlit("ok");
    reveal_strlit("warn");
    reveal_strlit("idle");
    reveal_strlit("fail");
    assert("unknown"@.len() == 7 && "unknown"@[0] == 'u');
    assert("loading"@.len() == 7 && "loading"@[0] == 'l');
    assert("ok"@.len() == 2 && "warn"@.len() == 4 && "idle"@.len() == 4 && "fail"@.len() == 4);
    assert("idle"@[0] == 'i' && "warn"@[0] == 'w' && "fail"@[0] == 'f');
}

/// A snapshot is empty exactly when neither pool has an upstream, and an empty
/// one has no upstream in the wrong pool.
pub proof fn empty_snapshots(snapshot: PoolSnapshot)
    ensures
        snapshot.holds_nothing() <==> snapshot.gpu@ == Seq::<UpstreamInfo>::empty() && snapshot.cpu@
            == Seq::<UpstreamInfo>::empty(),
        snapshot.holds_nothing() ==> snapshot.is_pure(),
{
    if snapshot.holds_nothing() {
        assert(snapshot.gpu@ =~= Seq::<UpstreamInfo>::empty());
        assert(snapshot.cpu@ =~= Seq::<UpstreamInfo>::empty());
    }
}

/// One upstream of the wrong type, in either pool, and a snapshot is not pure.
pub proof fn pure_snapshots_have_no_stranger(snapshot: PoolSnapshot, i: int)
    requires
        snapshot.is_pure(),
    ensures
        0 <= i < snapshot.gpu@.len() ==> snapshot.gpu@[i].pool_type == PoolType::Gpu,
        0 <= i < snapshot.cpu@.len() ==> snapshot.cpu@[i].pool_type == PoolType::Cpu,
{
}

}
