//! The decisions of the object-storage facade, which puts a backend and the cache
//! behind one read-through, write-through store. The caller performs each action on
//! the backend or the cache and reports what happened; the task answers with the
//! next action.
use vstd::prelude::*;

use crate::errors::RepoError;

verus! {

/// An operation of the facade.
#[derive(Clone, Copy, Debug, PartialEq, Eq, Structural)]
pub enum StoreOp {
    /// Return the cached file, downloading it first when it is not cached.
    Get,
    /// Upload a file, then move it into the cache.
    Put,
    /// Upload bytes; the cache entry must then exist.
    PutBytes,
    /// Delete from the backend, then from the cache.
    Remove,
    /// Drop the cache entry, then download it again.
    Refresh,
}

/// What the caller is to do next.
#[derive(Clone, Copy, Debug, PartialEq, Eq, Structural)]
pub enum StoreAction {
    /// See whether the cache holds the entry.
    CheckCache,
    /// Have the backend write the object to the download staging directory.
    Fetch,
    /// Move the fetched or uploaded file into the cache.
    Install,
    /// Upload to the backend.
    Upload,
    /// Delete the object from the backend.
    Delete,
    /// Remove the cache entry and the directories it leaves empty.
    Evict,
    /// Stop: the operation succeeded.
    Succeed,
    /// Stop: the operation failed with this error.
    Fail(RepoError),
}

/// What the caller observed after performing an action.
#[derive(Clone, Copy, Debug, PartialEq, Eq, Structural)]
pub enum StoreEvent {
    /// The cache holds the entry.
    Hit,
    /// The cache does not hold the entry.
    Miss,
    /// The action succeeded.
    Done,
    /// The action failed with this error.
    Failed(RepoError),
}

/// The first action of `op`.
pub open spec fn first_action(op: StoreOp) -> StoreAction {
    match op {
        StoreOp::Get => StoreAction::CheckCache,
        StoreOp::Put | StoreOp::PutBytes => StoreAction::Upload,
        StoreOp::Remove => StoreAction::Delete,
        StoreOp::Refresh => StoreAction::Evict,
    }
}

/// The action that follows `pending` in `op` on event `ev`.
pub open spec fn next_action(op: StoreOp, pending: StoreAction, ev: StoreEvent) -> StoreAction {
    match pending {
        StoreAction::Succeed => StoreAction::Succeed,
        StoreAction::Fail(e) => StoreAction::Fail(e),
        _ => match ev {
            StoreEvent::Failed(e) => StoreAction::Fail(e),
            StoreEvent::Hit => if pending == StoreAction::CheckCache {
                StoreAction::Succeed
            } else {
                StoreAction::Fail(RepoError::Io)
            },
            StoreEvent::Miss => if pending == StoreAction::CheckCache {
                if op == StoreOp::PutBytes {
                    StoreAction::Fail(RepoError::MissingCacheEntry)
                } else {
                    StoreAction::Fetch
                }
            } else {
                StoreAction::Fail(RepoError::Io)
            },
            StoreEvent::Done => match pending {
                StoreAction::Fetch => StoreAction::Install,
                StoreAction::Install => StoreAction::Succeed,
                StoreAction::Upload => if op == StoreOp::Put {
                    StoreAction::Install
                } else {
                    StoreAction::CheckCache
                },
                StoreAction::Delete => StoreAction::Evict,
                StoreAction::Evict => if op == StoreOp::Refresh {
                    StoreAction::Fetch
                } else {
                    StoreAction::Succeed
                },
                _ => StoreAction::Fail(RepoError::Io),
            },
        },
    }
}

/// One operation of the facade in progress.
pub struct StoreTask {
    pub op: StoreOp,
    /// The action the caller is performing.
    pub pending: StoreAction,
}

impl StoreTask {
    /// The task of `op`, and its first action.
    pub fn start(op: StoreOp) -> (r: (StoreTask, StoreAction))
        ensures
            r.0.op == op,
            r.0.pending == first_action(op),
            r.1 == first_action(op),
    {
        let a = match op {
            StoreOp::Get => StoreAction::CheckCache,
            StoreOp::Put | StoreOp::PutBytes => StoreAction::Upload,
            StoreOp::Remove => StoreAction::Delete,
            StoreOp::Refresh => StoreAction::Evict,
        };
        (StoreTask { op, pending: a }, a)
    }

    /// Takes in what happened, and answers with the next action.
    pub fn on_event(&mut self, ev: StoreEvent) -> (r: StoreAction)
        ensures
            final(self).op == old(self).op,
            r == next_action(old(self).op, old(self).pending, ev),
            final(self).pending == r,
    {
        let op = self.op;
        let pending = self.pending;
        let next = match pending {
            StoreAction::Succeed => StoreAction::Succeed,
            StoreAction::Fail(e) => StoreAction::Fail(e),
            _ => match ev {
                StoreEvent::Failed(e) => StoreAction::Fail(e),
                StoreEvent::Hit => if pending == StoreAction::CheckCache {
                    StoreAction::Succeed
                } else {
                    StoreAction::Fail(RepoError::Io)
                },
                StoreEvent::Miss => if pending == StoreAction::CheckCache {
                    if op == StoreOp::PutBytes {
                        StoreAction::Fail(RepoError::MissingCacheEntry)
                    } else {
                        StoreAction::Fetch
                    }
                } else {
                    StoreAction::Fail(RepoError::Io)
                },
                StoreEvent::Done => match pending {
                    StoreAction::Fetch => StoreAction::Install,
                    StoreAction::Install => StoreAction::Succeed,
                    StoreAction::Upload => if op == StoreOp::Put {
                        StoreAction::Install
                    } else {
                        StoreAction::CheckCache
                    },
                    StoreAction::Delete => StoreAction::Evict,
                    StoreAction::Evict => if op == StoreOp::Refresh {
                        StoreAction::Fetch
                    } else {
                        StoreAction::Succeed
                    },
                    _ => StoreAction::Fail(RepoError::Io),
                },
            },
        };
        self.pending = next;
        next
    }
}

/// The actions that an operation can be waiting on, from its first action on.
pub open spec fn reachable(op: StoreOp, a: StoreAction) -> bool {
    a == StoreAction::Succeed || a is Fail || match op {
        StoreOp::Get => a == StoreAction::CheckCache || a == StoreAction::Fetch || a
            == StoreAction::Install,
        StoreOp::Put => a == StoreAction::Upload || a == StoreAction::Install,
        StoreOp::PutBytes => a == StoreAction::Upload || a == StoreAction::CheckCache,
        StoreOp::Remove => a == StoreAction::Delete || a == StoreAction::Evict,
        StoreOp::Refresh => a == StoreAction::Evict || a == StoreAction::Fetch || a
            == StoreAction::Install,
    }
}

/// The order that the facade keeps: each operation only moves along its own
/// actions; a put succeeds only once the upload is done and the file is in the
/// cache; a put of bytes succeeds only once the upload is done and the cache holds
/// the entry; a refresh succeeds only once the entry was evicted and then fetched
/// and installed anew; a removal touches the cache only after the backend deleted
/// the object.
pub proof fn lemma_store_order(op: StoreOp, pending: StoreAction, ev: StoreEvent)
    requires
        reachable(op, pending),
    ensures
        reachable(op, next_action(op, pending, ev)),
        op == StoreOp::Put && pending != StoreAction::Succeed && next_action(op, pending, ev)
            == StoreAction::Succeed ==> pending == StoreAction::Install && ev == StoreEvent::Done,
        op == StoreOp::Put && next_action(op, pending, ev) == StoreAction::Install ==> pending
            == StoreAction::Upload || pending == StoreAction::Install,
        op == StoreOp::PutBytes && pending != StoreAction::Succeed && next_action(op, pending, ev)
            == StoreAction::Succeed ==> pending == StoreAction::CheckCache && ev == StoreEvent::Hit,
        op == StoreOp::PutBytes && next_action(op, pending, ev) == StoreAction::CheckCache
            ==> pending == StoreAction::Upload || pending == StoreAction::CheckCache,
        op == StoreOp::Refresh && pending != StoreAction::Succeed && next_action(op, pending, ev)
            == StoreAction::Succeed ==> pending == StoreAction::Install && ev == StoreEvent::Done,
        op == StoreOp::Refresh && next_action(op, pending, ev) == StoreAction::Fetch ==> pending
            == StoreAction::Evict || pending == StoreAction::Fetch,
        op == StoreOp::Remove && next_action(op, pending, ev) == StoreAction::Evict ==> pending
            == StoreAction::Delete && ev == StoreEvent::Done || pending == StoreAction::Evict,
{
}

} // verus!
