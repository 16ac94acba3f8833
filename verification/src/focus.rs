//! Focus bookkeeping: which application or window had the focus when the
//! panel came up, so that it can have it back when the panel goes.
//!
//! At most one target is pending at a time. Saving again before a restore
//! replaces the pending target; restoring hands the target out and leaves
//! nothing pending. How a target is observed and activated differs by
//! platform, and so does what counts as a target worth keeping.

pub mod linux;
pub mod macos;
pub mod windows;

use vstd::prelude::*;

verus! {

/// The place for the one pending focus target.
pub struct FocusSlot<T> {
    pending: Option<T>,
}

/// What is pending after a save: the candidate where there is one, else what
/// was pending before.
pub open spec fn saved<T>(pending: Option<T>, candidate: Option<T>) -> Option<T> {
    match candidate {
        Some(target) => Some(target),
        None => pending,
    }
}

/// A restore: the target handed out, then what stays pending, which is
/// nothing.
pub open spec fn restored<T>(pending: Option<T>) -> (Option<T>, Option<T>) {
    (pending, None)
}

impl<T> FocusSlot<T> {
    /// The pending target, if there is one.
    pub closed spec fn pending(&self) -> Option<T> {
        self.pending
    }

    /// A slot with nothing pending.
    pub fn new() -> (slot: Self)
        ensures
            slot.pending() is None,
    {
        FocusSlot { pending: None }
    }

    /// Whether a target is pending.
    pub fn is_pending(&self) -> (pending: bool)
        ensures
            pending == self.pending() is Some,
    {
        self.pending.is_some()
    }

    /// Makes `candidate` the pending target, in place of any other. Without a
    /// candidate nothing changes.
    pub fn save(&mut self, candidate: Option<T>)
        ensures
            final(self).pending() == saved(old(self).pending(), candidate),
    {
        if let Some(target) = candidate {
            self.pending = Some(target);
        }
    }

    /// Hands out the pending target and leaves nothing pending. With nothing
    /// pending this does nothing.
    pub fn restore(&mut self) -> (target: Option<T>)
        ensures
            (target, final(self).pending()) == restored(old(self).pending()),
    {
        self.pending.take()
    }
}

/// After a save and a restore nothing is pending, whatever was saved, and a
/// second restore hands out nothing and changes nothing.
pub proof fn lemma_focus_cycle<T>(pending: Option<T>, candidate: Option<T>)
    ensures
        restored(saved(pending, candidate)).0 == saved(pending, candidate),
        restored(saved(pending, candidate)).1 is None,
        restored(restored(saved(pending, candidate)).1) == (None::<T>, None::<T>),
{
}

/// Of two saves in a row only the second counts: a restore hands out the
/// second target and never the first.
pub proof fn lemma_last_save_wins<T>(pending: Option<T>, first: T, second: T)
    ensures
        restored(saved(saved(pending, Some(first)), Some(second))) == (Some(second), None::<T>),
{
}

/// A save without a candidate keeps what an earlier save made pending.
pub proof fn lemma_empty_save_keeps_target<T>(pending: Option<T>, first: T)
    ensures
        restored(saved(saved(pending, Some(first)), None)) == (Some(first), None::<T>),
{
}

} // verus!
