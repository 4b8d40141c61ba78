//! The sequential heart of the shared error slot: a visibility flag paired
//! with an optional payload, and the transitions a slot can make.
//!
//! [`SharedError`](crate::shared::SharedError) keeps one [`ErrorSlot`]
//! behind its lock; every operation on the shared slot is one of these
//! verified transitions, performed while the lock is held. The abstract
//! state of a slot is the `Option<ErrorKind>` it stores; the free spec
//! functions below say how each transition moves that state, and the proof
//! functions state the laws of the slot's lifecycle over them.

use crate::error::ErrorKind;
use vstd::prelude::*;

verus! {

/// The slot state after a deposit: exactly the new error, whatever was
/// stored before. An undrained earlier error is silently replaced: last
/// writer wins.
pub open spec fn slot_after_set(prior: Option<ErrorKind>, error: ErrorKind) -> Option<ErrorKind> {
    Some(error)
}

/// The slot state after a drain: empty, whatever was stored before.
pub open spec fn slot_after_take(prior: Option<ErrorKind>) -> Option<ErrorKind> {
    None
}

/// A visibility flag paired with at most one error. Its invariant, [`wf`](ErrorSlot::wf),
/// ties the two: the flag is raised exactly when a payload is present.
pub struct ErrorSlot {
    error_set: bool,
    error: Option<ErrorKind>,
}

impl ErrorSlot {
    /// The payload currently stored, if any: the abstract state of the slot.
    pub closed spec fn stored(self) -> Option<ErrorKind> {
        self.error
    }

    /// The visibility flag.
    pub closed spec fn flagged(self) -> bool {
        self.error_set
    }

    /// Well-formedness: the flag is raised exactly when a payload is present.
    pub open spec fn wf(self) -> bool {
        self.flagged() <==> self.stored() is Some
    }

    /// A fresh slot: flag down, no payload.
    pub fn new() -> (s: ErrorSlot)
        ensures
            s.wf(),
            s.stored() is None,
    {
        ErrorSlot { error_set: false, error: None }
    }

    /// Whether an error is currently stored; reads the flag alone.
    pub fn is_set(&self) -> (b: bool)
        requires
            self.wf(),
        ensures
            b == (self.stored() is Some),
    {
        self.error_set
    }

    /// Store `error` and raise the flag, replacing whatever was stored.
    pub fn set(&mut self, error: ErrorKind)
        ensures
            final(self).wf(),
            final(self).stored() == slot_after_set(old(self).stored(), error),
    {
        self.error = Some(error);
        self.error_set = true;
    }

    /// Remove and return the stored payload, if any, and lower the flag.
    pub fn take(&mut self) -> (r: Option<ErrorKind>)
        ensures
            final(self).wf(),
            r == old(self).stored(),
            final(self).stored() == slot_after_take(old(self).stored()),
    {
        let r = self.error.take();
        self.error_set = false;
        r
    }
}

/// After a deposit the slot reads as set, one drain returns exactly the
/// deposited error — structurally equal, message text included — and the
/// slot is empty again afterwards.
pub proof fn lemma_set_then_take(prior: Option<ErrorKind>, error: ErrorKind)
    ensures
        slot_after_set(prior, error) is Some,
        slot_after_set(prior, error) == Some(error),
        slot_after_take(slot_after_set(prior, error)) is None,
{
}

/// Draining is idempotent: whatever the slot held, a drain empties it, so a
/// second drain without an intervening deposit returns nothing and leaves
/// the slot empty.
pub proof fn lemma_take_drains_once(prior: Option<ErrorKind>)
    ensures
        slot_after_take(prior) is None,
        slot_after_take(slot_after_take(prior)) is None,
{
}

/// Last writer wins: two deposits without an intervening drain leave
/// exactly the second error retrievable; the first is unrecoverable.
pub proof fn lemma_set_overwrites(prior: Option<ErrorKind>, first: ErrorKind, second: ErrorKind)
    ensures
        slot_after_set(slot_after_set(prior, first), second) == Some(second),
{
}

} // verus!
