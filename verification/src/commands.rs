//! The decisions behind the application's commands: which utility
//! synthesises a paste keystroke and what its outcome means, what a copy
//! request asks for, which files go when a history entry goes, how the
//! shortcut toggles the panel, and where the panel window is placed.
//!
//! Running a utility, touching the clipboard and moving windows is the
//! caller's part.

use crate::clipboard::ContentKind;
use crate::models::{default_settings, Settings};
use crate::text::same_text;
use vstd::prelude::*;
use vstd::string::*;

verus! {

/// Time to wait before the paste keystroke is sent, in milliseconds, so that
/// the application that gets the focus back is ready for it.
pub const PASTE_DELAY_MS: u64 = 100;

/// The panel window keeps this many pixels between itself and the bottom of
/// the monitor.
pub const BOTTOM_MARGIN: u32 = 100;

/// The operating systems that are supported.
#[derive(Debug, Clone, Copy, PartialEq, Eq, Structural)]
pub enum Platform {
    MacOs,
    Windows,
    Linux,
}

/// A command-line utility and the arguments to run it with.
#[derive(Debug)]
pub struct ExternalCommand {
    pub program: String,
    pub args: Vec<String>,
}

/// What an `ExternalCommand` holds, with every text as a character sequence.
pub struct CommandView {
    pub program: Seq<char>,
    pub args: Seq<Seq<char>>,
}

impl View for ExternalCommand {
    type V = CommandView;

    open spec fn view(&self) -> CommandView {
        CommandView { program: self.program@, args: self.args.deep_view() }
    }
}

/// How running a utility ended.
#[derive(Debug)]
pub enum CommandOutcome {
    /// The utility could not be started; `reason` is the system's message.
    NotStarted { reason: String },
    /// The utility ran to its end.
    Finished { success: bool, stdout: String, stderr: String },
}

/// The command that sends the paste keystroke on `platform`.
pub open spec fn paste_command_spec(platform: Platform) -> CommandView {
    match platform {
        Platform::MacOs => CommandView {
            program: "osascript"@,
            args: seq![
                "-e"@,
                "tell application \"System Events\" to keystroke \"v\" using command down"@,
            ],
        },
        Platform::Windows => CommandView {
            program: "powershell"@,
            args: seq![
                "-Command"@,
                "Add-Type -AssemblyName System.Windows.Forms; [System.Windows.Forms.SendKeys]::SendWait('^v')"@,
            ],
        },
        Platform::Linux => CommandView { program: "xdotool"@, args: seq!["key"@, "ctrl+v"@] },
    }
}

/// The command that sends the paste keystroke on `platform`. It is to be run
/// `PASTE_DELAY_MS` after the focus went back to the target application, not
/// earlier.
pub fn paste_command(platform: Platform) -> (command: ExternalCommand)
    ensures
        command@ == paste_command_spec(platform),
{
    let command = match platform {
        Platform::MacOs => ExternalCommand {
            program: "osascript".to_string(),
            args: vec![
                "-e".to_string(),
                "tell application \"System Events\" to keystroke \"v\" using command down".to_string(),
            ],
        },
        Platform::Windows => ExternalCommand {
            program: "powershell".to_string(),
            args: vec![
                "-Command".to_string(),
                "Add-Type -AssemblyName System.Windows.Forms; [System.Windows.Forms.SendKeys]::SendWait('^v')".to_string(),
            ],
        },
        Platform::Linux => ExternalCommand {
            program: "xdotool".to_string(),
            args: vec!["key".to_string(), "ctrl+v".to_string()],
        },
    };
    assert(command.args.deep_view() =~= paste_command_spec(platform).args);
    command
}

/// What is reported for a paste whose utility ended with `outcome`: success
/// where the utility ran and succeeded, else the text of the failure.
pub open spec fn paste_result_spec(platform: Platform, outcome: CommandOutcome) -> Result<
    (),
    Seq<char>,
> {
    match outcome {
        CommandOutcome::NotStarted { reason } => if platform == Platform::Linux {
            Err(
                "xdotool not found. Please install it: sudo apt install xdotool. Error: "@
                    + reason@,
            )
        } else {
            Err(reason@)
        },
        CommandOutcome::Finished { success, stdout, stderr } => if success {
            Ok(())
        } else {
            Err(stderr@)
        },
    }
}

/// The characters of an error text.
pub open spec fn error_text<T>(result: Result<T, String>) -> Result<T, Seq<char>> {
    match result {
        Ok(value) => Ok(value),
        Err(text) => Err(text@),
    }
}

/// What is reported for a paste whose utility ended with `outcome`.
pub fn paste_result(platform: Platform, outcome: &CommandOutcome) -> (result: Result<(), String>)
    ensures
        error_text(result) == paste_result_spec(platform, *outcome),
{
    match outcome {
        CommandOutcome::NotStarted { reason } => {
            match platform {
                Platform::Linux => Err(
                    "xdotool not found. Please install it: sudo apt install xdotool. Error: ".to_string().concat(
                        reason.as_str(),
                    ),
                ),
                _ => Err(reason.clone()),
            }
        },
        CommandOutcome::Finished { success, stdout: _, stderr } => {
            if *success {
                Ok(())
            } else {
                Err(stderr.clone())
            }
        },
    }
}

/// What a copy request asks to be put on the clipboard.
#[derive(Debug)]
pub enum CopyRequest {
    /// This text.
    Text(String),
    /// The image in the file at this path.
    ImageFile(String),
}

/// Reads a copy request: `content` is the text itself for the kind `"text"`
/// and the path of an image file for the kind `"image"`. Any other kind is
/// refused.
pub fn copy_request(content: String, content_type: &str) -> (request: Result<CopyRequest, String>)
    ensures
        match ContentKind::parse_spec(content_type@) {
            Some(ContentKind::Text) => request matches Ok(CopyRequest::Text(text)) && text
                == content,
            Some(ContentKind::Image) => request matches Ok(CopyRequest::ImageFile(path)) && path
                == content,
            None => request matches Err(message) && message@ == "Unsupported content type"@,
        },
{
    match ContentKind::parse(content_type) {
        Some(ContentKind::Text) => Ok(CopyRequest::Text(content)),
        Some(ContentKind::Image) => Ok(CopyRequest::ImageFile(content)),
        None => Err("Unsupported content type".to_string()),
    }
}

/// The path to delete for one recorded location: the location itself, unless
/// there is none or it is empty.
pub open spec fn deletable(path: Option<Seq<char>>) -> Seq<Seq<char>> {
    match path {
        Some(path) => if path.len() > 0 {
            seq![path]
        } else {
            Seq::empty()
        },
        None => Seq::empty(),
    }
}

/// The characters of an optional path.
pub open spec fn optional_path(path: Option<String>) -> Option<Seq<char>> {
    match path {
        Some(path) => Some(path@),
        None => None,
    }
}

/// The files to remove with a history entry: the image first, then the
/// thumbnail, each only where a path that is not empty was recorded.
pub fn files_to_delete(image_path: Option<String>, thumbnail_path: Option<String>) -> (paths: Vec<
    String,
>)
    ensures
        paths.deep_view() == deletable(optional_path(image_path)) + deletable(
            optional_path(thumbnail_path),
        ),
{
    let mut paths: Vec<String> = Vec::new();
    if let Some(path) = image_path {
        if !path.as_str().is_empty() {
            paths.push(path);
        }
    }
    if let Some(path) = thumbnail_path {
        if !path.as_str().is_empty() {
            paths.push(path);
        }
    }
    assert(paths.deep_view() =~= deletable(optional_path(image_path)) + deletable(
        optional_path(thumbnail_path),
    ));
    paths
}

/// The settings in force: the defaults.
pub fn get_settings() -> (settings: Result<Settings, String>)
    ensures
        settings matches Ok(settings) && settings@ == default_settings(),
{
    Ok(Settings::default())
}

/// One step of showing or hiding the panel.
#[derive(Debug, Clone, Copy, PartialEq, Eq, Structural)]
pub enum PanelStep {
    /// Remember which application has the focus.
    SaveFocus,
    /// Show the panel and give it the focus.
    ShowPanel,
    /// Hide the panel.
    HidePanel,
    /// Give the focus back to the remembered application.
    RestoreFocus,
}

/// What the shortcut does, in order: a visible panel is hidden and the focus
/// goes back; a hidden panel is shown, after the focus was saved.
pub open spec fn shortcut_steps(visible: bool) -> Seq<PanelStep> {
    if visible {
        seq![PanelStep::HidePanel, PanelStep::RestoreFocus]
    } else {
        seq![PanelStep::SaveFocus, PanelStep::ShowPanel]
    }
}

/// The steps to take when the shortcut is pressed while the panel is
/// `visible` or not.
pub fn handle_shortcut(visible: bool) -> (steps: Vec<PanelStep>)
    ensures
        steps@ == shortcut_steps(visible),
{
    let steps = if visible {
        vec![PanelStep::HidePanel, PanelStep::RestoreFocus]
    } else {
        vec![PanelStep::SaveFocus, PanelStep::ShowPanel]
    };
    assert(steps@ =~= shortcut_steps(visible));
    steps
}

/// A distance in pixels as the signed 32-bit number with the same bits: itself
/// up to `i32::MAX`, negative beyond.
pub open spec fn wrapped_i32(distance: int) -> int {
    if distance > i32::MAX {
        distance - 0x1_0000_0000
    } else {
        distance
    }
}

/// Where the panel window goes on its monitor: centred from left to right,
/// with `BOTTOM_MARGIN` pixels below it. The distance from the monitor's top
/// is taken as a signed 32-bit number. There is no such place when the window
/// is wider than the monitor, when window and margin are higher than the
/// monitor, or when a coordinate leaves the range of `i32`.
pub open spec fn bottom_center(
    monitor_x: int,
    monitor_y: int,
    monitor_width: int,
    monitor_height: int,
    window_width: int,
    window_height: int,
) -> Option<(int, int)> {
    let x = monitor_x + (monitor_width - window_width) / 2;
    let y = monitor_y + wrapped_i32(monitor_height - window_height - BOTTOM_MARGIN);
    if window_width <= monitor_width && window_height + BOTTOM_MARGIN <= monitor_height
        && i32::MIN <= x <= i32::MAX && i32::MIN <= y <= i32::MAX {
        Some((x, y))
    } else {
        None
    }
}

/// The two coordinates of an optional position as integers.
pub open spec fn position_view(position: Option<(i32, i32)>) -> Option<(int, int)> {
    match position {
        Some((x, y)) => Some((x as int, y as int)),
        None => None,
    }
}

/// Where to put the panel window on the monitor that holds it.
pub fn position_window_bottom(
    monitor_x: i32,
    monitor_y: i32,
    monitor_width: u32,
    monitor_height: u32,
    window_width: u32,
    window_height: u32,
) -> (position: Option<(i32, i32)>)
    ensures
        position_view(position) == bottom_center(
            monitor_x as int,
            monitor_y as int,
            monitor_width as int,
            monitor_height as int,
            window_width as int,
            window_height as int,
        ),
{
    if window_width > monitor_width {
        return None;
    }
    if (window_height as u64) + (BOTTOM_MARGIN as u64) > monitor_height as u64 {
        return None;
    }
    let across: i64 = ((monitor_width - window_width) / 2) as i64;
    let distance: i64 = (monitor_height - window_height - BOTTOM_MARGIN) as i64;
    let down: i64 = if distance > i32::MAX as i64 {
        distance - 0x1_0000_0000
    } else {
        distance
    };
    let x: i64 = monitor_x as i64 + across;
    let y: i64 = monitor_y as i64 + down;
    if x > i32::MAX as i64 || y > i32::MAX as i64 || y < i32::MIN as i64 {
        return None;
    }
    Some((x as i32, y as i32))
}

/// What an entry of the tray menu does.
#[derive(Debug, Clone, Copy, PartialEq, Eq, Structural)]
pub enum TrayAction {
    /// Show the panel and announce it with the event `panel-show`.
    ShowPanel,
    /// End the application.
    Quit,
    /// Nothing.
    Ignore,
}

/// What the tray menu entry with the identifier `id` does.
pub open spec fn tray_menu_action_spec(id: Seq<char>) -> TrayAction {
    if id == "show"@ {
        TrayAction::ShowPanel
    } else if id == "quit"@ {
        TrayAction::Quit
    } else {
        TrayAction::Ignore
    }
}

/// What the tray menu entry with the identifier `id` does.
pub fn tray_menu_action(id: &str) -> (action: TrayAction)
    ensures
        action == tray_menu_action_spec(id@),
{
    if same_text(id, "show") {
        TrayAction::ShowPanel
    } else if same_text(id, "quit") {
        TrayAction::Quit
    } else {
        TrayAction::Ignore
    }
}

} // verus!
