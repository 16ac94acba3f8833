//! Windows: the focus target is the handle of the foreground window.

use crate::focus::{restored, saved, FocusSlot};
use vstd::prelude::*;

verus! {

/// One system call of bringing a window to the foreground.
#[derive(Debug, Clone, Copy, PartialEq, Eq, Structural)]
pub enum ForegroundStep {
    /// Attach the input queue of `thread` to that of `to`.
    AttachInput { thread: u32, to: u32 },
    /// Make `window` the foreground window.
    SetForeground { window: isize },
    /// Detach the input queue of `thread` from that of `to`.
    DetachInput { thread: u32, to: u32 },
}

/// The window worth remembering: the foreground one, unless its handle is
/// null.
pub open spec fn storable_window(foreground: isize) -> Option<isize> {
    if foreground != 0 {
        Some(foreground)
    } else {
        None
    }
}

/// The calls that bring `window` to the foreground. The system refuses the
/// change to a thread that does not own the foreground window, so the calling
/// thread first attaches its input queue to that of the owner, where the two
/// differ, and detaches it afterwards.
pub open spec fn foreground_plan(window: isize, foreground_thread: u32, current_thread: u32) -> Seq<
    ForegroundStep,
> {
    if foreground_thread != current_thread {
        seq![
            ForegroundStep::AttachInput { thread: current_thread, to: foreground_thread },
            ForegroundStep::SetForeground { window },
            ForegroundStep::DetachInput { thread: current_thread, to: foreground_thread },
        ]
    } else {
        seq![ForegroundStep::SetForeground { window }]
    }
}

/// Remembers the foreground window. `foreground` is the raw value of its
/// handle, zero for the null handle.
pub fn save_frontmost_app(slot: &mut FocusSlot<isize>, foreground: isize)
    ensures
        final(slot).pending() == saved(old(slot).pending(), storable_window(foreground)),
{
    let candidate = if foreground != 0 {
        Some(foreground)
    } else {
        None
    };
    slot.save(candidate);
}

/// The window to bring to the foreground now, if one is pending. Nothing is
/// pending afterwards.
pub fn restore_previous_app(slot: &mut FocusSlot<isize>) -> (target: Option<isize>)
    ensures
        (target, final(slot).pending()) == restored(old(slot).pending()),
{
    slot.restore()
}

/// The calls that bring `window` to the foreground, in order.
/// `foreground_thread` owns the window that is in the foreground now,
/// `current_thread` is the calling thread.
pub fn foreground_steps(window: isize, foreground_thread: u32, current_thread: u32) -> (steps: Vec<
    ForegroundStep,
>)
    ensures
        steps@ == foreground_plan(window, foreground_thread, current_thread),
{
    let steps = if foreground_thread != current_thread {
        vec![
            ForegroundStep::AttachInput { thread: current_thread, to: foreground_thread },
            ForegroundStep::SetForeground { window },
            ForegroundStep::DetachInput { thread: current_thread, to: foreground_thread },
        ]
    } else {
        vec![ForegroundStep::SetForeground { window }]
    };
    assert(steps@ =~= foreground_plan(window, foreground_thread, current_thread));
    steps
}

} // verus!
