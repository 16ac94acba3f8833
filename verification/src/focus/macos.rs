//! macOS: the focus target is the process id of the frontmost application.

use crate::focus::{restored, saved, FocusSlot};
use vstd::prelude::*;

verus! {

/// The activation option "ignoring other apps", with which the remembered
/// application is activated.
pub const ACTIVATE_IGNORING_OTHER_APPS: usize = 2;

/// The process worth remembering: the frontmost one, unless there is none, it
/// is this process itself, or its id is not positive.
pub open spec fn storable_process(frontmost: Option<i32>, own_pid: u32) -> Option<i32> {
    match frontmost {
        Some(pid) => if pid > 0 && pid != own_pid {
            Some(pid)
        } else {
            None
        },
        None => None,
    }
}

/// Remembers the frontmost application. `frontmost` is its process id, `None`
/// where the system names no frontmost application; `own_pid` is the id of
/// this process, which is never remembered.
pub fn save_frontmost_app(slot: &mut FocusSlot<i32>, frontmost: Option<i32>, own_pid: u32)
    ensures
        final(slot).pending() == saved(old(slot).pending(), storable_process(frontmost, own_pid)),
{
    let candidate = match frontmost {
        Some(pid) => if pid > 0 && pid as i64 != own_pid as i64 {
            Some(pid)
        } else {
            None
        },
        None => None,
    };
    slot.save(candidate);
}

/// The process to activate now, if one is pending. Nothing is pending
/// afterwards, whether or not the activation then succeeds.
pub fn restore_previous_app(slot: &mut FocusSlot<i32>) -> (target: Option<i32>)
    ensures
        (target, final(slot).pending()) == restored(old(slot).pending()),
{
    slot.restore()
}

} // verus!
