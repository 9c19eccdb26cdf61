//! The snapshot that readers and background tasks share.
//!
//! Readers load the current snapshot; discovery and health polling replace it
//! whole. Every snapshot that is shared has each upstream in the pool of its
//! type.

use std::sync::Arc;

use arc_swap::ArcSwap;
use vstd::prelude::*;

use crate::upstream::snapshot::PoolSnapshot;

verus! {

/// An `arc_swap::ArcSwap` of the current snapshot.
#[verifier::external_body]
#[derive(Debug)]
pub struct SharedPool {
    inner: ArcSwap<PoolSnapshot>,
}

/// The snapshot that shared pools were made with: what they hold until another
/// is stored.
pub uninterp spec fn made_with(pool: SharedPool) -> PoolSnapshot;

/// The snapshot is stored in the shared pools at some time after they were
/// made.
pub uninterp spec fn was_stored(pool: SharedPool, snapshot: PoolSnapshot) -> bool;

/// The snapshot is one that the shared pools hold at some time: the one they
/// were made with, or one that is stored in them.
pub open spec fn was_held(pool: SharedPool, snapshot: PoolSnapshot) -> bool {
    snapshot == made_with(pool) || was_stored(pool, snapshot)
}

impl SharedPool {
    /// Calls `ArcSwap::from_pointee`, which makes a storage that starts with the
    /// snapshot.
    #[verifier::external_body]
    fn holding(snapshot: PoolSnapshot) -> (pool: SharedPool)
        requires
            snapshot.is_pure(),
        ensures
            made_with(pool) == snapshot,
    {
        SharedPool { inner: ArcSwap::from_pointee(snapshot) }
    }

    /// Calls `ArcSwap::load_full`, which returns the snapshot that was stored
    /// last, or the one that the pools were made with. Which one that is depends
    /// on the other tasks; that each upstream stands in the pool of its type
    /// holds of every snapshot that [`SharedPool::holding`] and
    /// [`SharedPool::publish`] take in.
    #[verifier::external_body]
    pub(crate) fn load_full(&self) -> (snapshot: Arc<PoolSnapshot>)
        ensures
            snapshot.is_pure(),
            was_held(*self, *snapshot),
    {
        self.inner.load_full()
    }

    /// Calls `ArcSwap::store`, which replaces the snapshot, and hands the new one
    /// back.
    #[verifier::external_body]
    pub(crate) fn publish(&self, snapshot: Arc<PoolSnapshot>) -> (stored: Arc<PoolSnapshot>)
        requires
            snapshot.is_pure(),
        ensures
            stored == snapshot,
            was_stored(*self, *stored),
    {
        self.inner.store(snapshot.clone());
        snapshot
    }

    /// Pools without upstreams.
    pub fn empty() -> (pool: SharedPool)
        ensures
            made_with(pool).holds_nothing(),
    {
        SharedPool::holding(PoolSnapshot::default())
    }

    /// The current snapshot.
    pub fn current(&self) -> (snapshot: Arc<PoolSnapshot>)
        ensures
            snapshot.is_pure(),
            was_held(*self, *snapshot),
    {
        self.load_full()
    }
}

/// Shared pools hold at no time but what they were made with and what is stored
/// in them.
pub proof fn held_snapshots_were_put_there(pool: SharedPool, snapshot: PoolSnapshot)
    ensures
        was_held(pool, snapshot) ==> snapshot == made_with(pool) || was_stored(pool, snapshot),
        was_held(pool, made_with(pool)),
        was_stored(pool, snapshot) ==> was_held(pool, snapshot),
{
}

}
