//! Linux with X11: the focus target is a window id, asked of and handed to
//! the `xdotool` utility.

use crate::commands::{CommandOutcome, CommandView, ExternalCommand};
use crate::focus::{saved, FocusSlot};
use crate::text::{trim, trimmed};
use vstd::prelude::*;
use vstd::string::*;

verus! {

/// The command that asks for the id of the active window.
pub open spec fn active_window_query_spec() -> CommandView {
    CommandView { program: "xdotool"@, args: seq!["getactivewindow"@] }
}

/// The command that activates the window with the id `window_id`.
pub open spec fn activate_window_spec(window_id: Seq<char>) -> CommandView {
    CommandView { program: "xdotool"@, args: seq!["windowactivate"@, window_id] }
}

/// The window id worth remembering: what the query printed, without the
/// white space around it, where the query ran, succeeded and printed more
/// than white space.
pub open spec fn storable_window_id(query: CommandOutcome) -> Option<Seq<char>> {
    match query {
        CommandOutcome::Finished { success, stdout, stderr } => if success && trimmed(
            stdout@,
        ).len() > 0 {
            Some(trimmed(stdout@))
        } else {
            None
        },
        CommandOutcome::NotStarted { reason } => None,
    }
}

/// The characters of the pending window id.
pub open spec fn pending_id(slot: FocusSlot<String>) -> Option<Seq<char>> {
    match slot.pending() {
        Some(id) => Some(id@),
        None => None,
    }
}

/// The command that asks for the id of the active window.
pub fn active_window_query() -> (command: ExternalCommand)
    ensures
        command@ == active_window_query_spec(),
{
    let command = ExternalCommand {
        program: "xdotool".to_string(),
        args: vec!["getactivewindow".to_string()],
    };
    assert(command.args.deep_view() =~= active_window_query_spec().args);
    command
}

/// Remembers the active window. `query` is how the command of
/// `active_window_query` ended.
pub fn save_frontmost_app(slot: &mut FocusSlot<String>, query: &CommandOutcome)
    ensures
        pending_id(*final(slot)) == saved(pending_id(*old(slot)), storable_window_id(*query)),
{
    let candidate = match query {
        CommandOutcome::Finished { success, stdout, stderr: _ } => {
            if *success {
                let window_id = trim(stdout.as_str());
                if window_id.as_str().is_empty() {
                    None
                } else {
                    Some(window_id)
                }
            } else {
                None
            }
        },
        CommandOutcome::NotStarted { reason: _ } => None,
    };
    slot.save(candidate);
}

/// The command that activates the pending window, if one is pending. Nothing
/// is pending afterwards.
pub fn restore_previous_app(slot: &mut FocusSlot<String>) -> (command: Option<ExternalCommand>)
    ensures
        final(slot).pending() is None,
        match pending_id(*old(slot)) {
            Some(window_id) => command matches Some(command) && command@ == activate_window_spec(
                window_id,
            ),
            None => command is None,
        },
{
    match slot.restore() {
        Some(window_id) => {
            let command = ExternalCommand {
                program: "xdotool".to_string(),
                args: vec!["windowactivate".to_string(), window_id],
            };
            assert(command.args.deep_view() =~= activate_window_spec(window_id@).args);
            Some(command)
        },
        None => None,
    }
}

} // verus!
