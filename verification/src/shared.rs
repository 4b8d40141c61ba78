//! The thread-shared error slot: a reference-counted handle that any
//! producer may deposit into and a supervising consumer drains.
//!
//! All handles cloned from one [`SharedError`] alias the same state. The
//! payload is guarded by a lock whose invariant admits only well-formed
//! [`ErrorSlot`] states, so every deposit and drain is one of the verified
//! slot transitions, performed while the lock is held. Beside the lock
//! stands an atomic flag: a purely advisory fast path for the consumer's
//! hot polling loop, updated under the lock with release ordering but read
//! without any lock at all.

use crate::error::ErrorKind;
use crate::slot::ErrorSlot;
use std::sync::Arc;
use std::sync::atomic::{AtomicBool, Ordering};
use vstd::prelude::*;
use vstd::rwlock::{RwLock, RwLockPredicate};

verus! {

/// The lock invariant of the shared slot: only well-formed slot states —
/// flag and payload in agreement — may rest in the lock.
pub struct SlotInv {}

impl RwLockPredicate<ErrorSlot> for SlotInv {
    open spec fn inv(self, v: ErrorSlot) -> bool {
        v.wf()
    }
}

/// Relies on `Arc::clone`: the returned handle shares the very value the
/// argument points to.
#[verifier::external_body]
fn clone_arc<T>(v: &Arc<T>) -> (res: Arc<T>)
    ensures
        res == *v,
{
    Arc::clone(v)
}

/// A handle to the one shared error slot of a client session.
///
/// Cloning yields another handle to the same slot, so a deposit through any
/// handle is visible to every other. The slot itself never fails: its
/// operations are infallible bookkeeping, and any failure it reports is
/// data — an [`ErrorKind`] value.
pub struct SharedError {
    error_set: Arc<AtomicBool>,
    error: Arc<RwLock<ErrorSlot, SlotInv>>,
}

impl SharedError {
    /// The handle's lock carries the slot invariant. Every handle out of
    /// [`new`](SharedError::new) or `clone` satisfies this.
    pub closed spec fn wf(self) -> bool {
        self.error.pred() == (SlotInv {})
    }

    /// A fresh slot: flag down, no payload. Clone the returned handle to
    /// hand the same slot to every producer and to the consumer.
    pub fn new() -> (s: SharedError)
        ensures
            s.wf(),
    {
        SharedError {
            error_set: Arc::new(AtomicBool::new(false)),
            error: Arc::new(RwLock::new(ErrorSlot::new(), Ghost(SlotInv {}))),
        }
    }

    /// Advisory, non-blocking check of the visibility flag: a single atomic
    /// load with relaxed ordering, for the consumer's hot polling loop.
    ///
    /// A `true` result means "probably set, go take", not a promise that
    /// [`remove`](SharedError::remove) will return a value: the flag may lag
    /// a concurrent deposit or drain for an instant.
    pub fn is_set(&self) -> bool {
        self.error_set.load(Ordering::Relaxed)
    }

    /// Deposit `error`: under the lock, store it as the payload — replacing
    /// any undrained earlier error, last writer wins — and raise the flag
    /// with release ordering. The payload mutation is the verified
    /// [`ErrorSlot::set`] transition, and releasing the lock re-establishes
    /// the slot invariant.
    pub fn set(&self, error: ErrorKind)
        requires
            self.wf(),
    {
        let (mut slot, handle) = self.error.acquire_write();
        slot.set(error);
        self.error_set.store(true, Ordering::Release);
        handle.release_write(slot);
    }

    /// Drain: under the lock, remove and return the payload if one is
    /// present, and lower the flag. The payload mutation is the verified
    /// [`ErrorSlot::take`] transition, so a drained slot is empty and ready
    /// for the next deposit.
    pub fn remove(&self) -> Option<ErrorKind>
        requires
            self.wf(),
    {
        let (mut slot, handle) = self.error.acquire_write();
        let taken = slot.take();
        self.error_set.store(false, Ordering::Release);
        handle.release_write(slot);
        taken
    }
}

impl Clone for SharedError {
    /// Another handle to the same slot: equal to the original, sharing its
    /// state.
    fn clone(&self) -> (res: Self)
        ensures
            res == *self,
    {
        SharedError {
            error_set: clone_arc(&self.error_set),
            error: clone_arc(&self.error),
        }
    }
}

} // verus!
