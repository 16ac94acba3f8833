use super_paste::commands::{
    copy_request, files_to_delete, get_settings, handle_shortcut, paste_command, paste_result,
    position_window_bottom, tray_menu_action, CommandOutcome, CopyRequest, PanelStep, Platform,
    TrayAction, BOTTOM_MARGIN, PASTE_DELAY_MS,
};
use super_paste::models::Settings;

fn finished(success: bool, stderr: &str) -> CommandOutcome {
    CommandOutcome::Finished { success, stdout: String::new(), stderr: stderr.to_string() }
}

#[test]
fn delays_and_margins() {
    assert_eq!(PASTE_DELAY_MS, 100);
    assert_eq!(BOTTOM_MARGIN, 100);
}

#[test]
fn paste_command_on_macos() {
    let command = paste_command(Platform::MacOs);
    assert_eq!(command.program, "osascript");
    assert_eq!(
        command.args,
        vec![
            "-e".to_string(),
            r#"tell application "System Events" to keystroke "v" using command down"#.to_string(),
        ]
    );
}

#[test]
fn paste_command_on_windows() {
    let command = paste_command(Platform::Windows);
    assert_eq!(command.program, "powershell");
    assert_eq!(
        command.args,
        vec![
            "-Command".to_string(),
            r#"Add-Type -AssemblyName System.Windows.Forms; [System.Windows.Forms.SendKeys]::SendWait('^v')"#
                .to_string(),
        ]
    );
}

#[test]
fn paste_command_on_linux() {
    let command = paste_command(Platform::Linux);
    assert_eq!(command.program, "xdotool");
    assert_eq!(command.args, vec!["key".to_string(), "ctrl+v".to_string()]);
}

#[test]
fn paste_succeeds_when_the_utility_does() {
    for platform in [Platform::MacOs, Platform::Windows, Platform::Linux] {
        assert_eq!(paste_result(platform, &finished(true, "")), Ok(()));
        assert_eq!(paste_result(platform, &finished(true, "a warning")), Ok(()));
    }
}

#[test]
fn paste_reports_what_the_utility_wrote_when_it_fails() {
    for platform in [Platform::MacOs, Platform::Windows, Platform::Linux] {
        assert_eq!(
            paste_result(platform, &finished(false, "not allowed")),
            Err("not allowed".to_string())
        );
        assert_eq!(paste_result(platform, &finished(false, "")), Err(String::new()));
    }
}

#[test]
fn paste_reports_a_missing_utility() {
    let missing = CommandOutcome::NotStarted { reason: "No such file".to_string() };
    assert_eq!(paste_result(Platform::MacOs, &missing), Err("No such file".to_string()));
    assert_eq!(paste_result(Platform::Windows, &missing), Err("No such file".to_string()));
    assert_eq!(
        paste_result(Platform::Linux, &missing),
        Err(
            "xdotool not found. Please install it: sudo apt install xdotool. Error: No such file"
                .to_string()
        )
    );
}

#[test]
fn copy_request_for_text() {
    match copy_request("hello".to_string(), "text") {
        Ok(CopyRequest::Text(text)) => assert_eq!(text, "hello"),
        other => panic!("unexpected request: {:?}", other),
    }
}

#[test]
fn copy_request_for_an_image_file() {
    match copy_request("/data/images/a.png".to_string(), "image") {
        Ok(CopyRequest::ImageFile(path)) => assert_eq!(path, "/data/images/a.png"),
        other => panic!("unexpected request: {:?}", other),
    }
}

#[test]
fn copy_request_of_another_kind_is_refused() {
    for kind in ["", "file", "TEXT", "image ", "html"] {
        match copy_request("x".to_string(), kind) {
            Err(message) => assert_eq!(message, "Unsupported content type"),
            other => panic!("unexpected request: {:?}", other),
        }
    }
}

#[test]
fn files_to_delete_are_the_recorded_ones() {
    assert_eq!(
        files_to_delete(Some("a.png".to_string()), Some("a_thumb.png".to_string())),
        vec!["a.png".to_string(), "a_thumb.png".to_string()]
    );
    assert_eq!(files_to_delete(Some("a.png".to_string()), None), vec!["a.png".to_string()]);
    assert_eq!(files_to_delete(None, Some("t.png".to_string())), vec!["t.png".to_string()]);
    assert_eq!(files_to_delete(None, None), Vec::<String>::new());
}

#[test]
fn empty_paths_are_not_deleted() {
    assert_eq!(files_to_delete(Some(String::new()), Some(String::new())), Vec::<String>::new());
    assert_eq!(
        files_to_delete(Some(String::new()), Some("t.png".to_string())),
        vec!["t.png".to_string()]
    );
    assert_eq!(
        files_to_delete(Some("a.png".to_string()), Some(String::new())),
        vec!["a.png".to_string()]
    );
}

#[test]
fn settings_are_the_defaults() {
    let settings = get_settings().unwrap();
    assert_eq!(settings.shortcut, "CommandOrControl+Shift+V");
    assert_eq!(settings.max_items, 1000);
    assert_eq!(settings.max_days, 30);
    assert_eq!(settings.max_file_size_mb, 10);

    let defaults = Settings::default();
    assert_eq!(defaults.shortcut, settings.shortcut);
    assert_eq!(defaults.max_items, settings.max_items);
    assert_eq!(defaults.max_days, settings.max_days);
    assert_eq!(defaults.max_file_size_mb, settings.max_file_size_mb);
}

#[test]
fn shortcut_toggles_the_panel() {
    assert_eq!(handle_shortcut(true), vec![PanelStep::HidePanel, PanelStep::RestoreFocus]);
    assert_eq!(handle_shortcut(false), vec![PanelStep::SaveFocus, PanelStep::ShowPanel]);
}

#[test]
fn window_is_centred_above_the_bottom_margin() {
    // (1920 - 800) / 2 = 560; 1080 - 400 - 100 = 580
    assert_eq!(position_window_bottom(0, 0, 1920, 1080, 800, 400), Some((560, 580)));
    // A second monitor to the right and below.
    assert_eq!(position_window_bottom(1920, 100, 1280, 720, 801, 200), Some((2159, 520)));
    // A monitor to the left.
    assert_eq!(position_window_bottom(-1920, 0, 1920, 1080, 1920, 980), Some((-1920, 0)));
}

#[test]
fn window_that_does_not_fit_has_no_place() {
    assert_eq!(position_window_bottom(0, 0, 800, 600, 801, 100), None);
    assert_eq!(position_window_bottom(0, 0, 800, 600, 800, 501), None);
    assert_eq!(position_window_bottom(0, 0, 800, 600, 800, 500), Some((0, 0)));
    assert_eq!(position_window_bottom(0, 0, 800, 600, 0, u32::MAX), None);
}

#[test]
fn window_position_stays_within_i32() {
    assert_eq!(position_window_bottom(i32::MAX, 0, 10, 200, 8, 100), None);
    assert_eq!(position_window_bottom(i32::MAX - 1, 0, 10, 200, 8, 100), Some((i32::MAX, 0)));
    assert_eq!(position_window_bottom(0, i32::MAX, 10, 201, 10, 100), None);
    // A distance beyond i32::MAX counts as the signed number with the same bits.
    assert_eq!(position_window_bottom(0, 0, 10, u32::MAX, 10, 0), Some((0, -101)));
    assert_eq!(
        position_window_bottom(0, 5, 10, 0x8000_0064, 10, 0),
        Some((0, i32::MIN + 5))
    );
    assert_eq!(position_window_bottom(0, -1, 10, 0x8000_0064, 10, 0), None);
    assert_eq!(
        position_window_bottom(0, 0, 10, 0x8000_0063, 10, 0),
        Some((0, i32::MAX))
    );
    assert_eq!(position_window_bottom(0, 1, 10, 0x8000_0063, 10, 0), None);
    assert_eq!(
        position_window_bottom(i32::MIN, i32::MIN, u32::MAX, 100, 1, 0),
        Some((-1, i32::MIN))
    );
}

#[test]
fn tray_menu_entries() {
    assert_eq!(tray_menu_action("show"), TrayAction::ShowPanel);
    assert_eq!(tray_menu_action("quit"), TrayAction::Quit);
    assert_eq!(tray_menu_action(""), TrayAction::Ignore);
    assert_eq!(tray_menu_action("Show"), TrayAction::Ignore);
    assert_eq!(tray_menu_action("about"), TrayAction::Ignore);
}
