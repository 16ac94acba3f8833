//! Records exchanged with the history store and the settings panel.

use vstd::prelude::*;

verus! {

/// One entry of the clipboard history as the persistence layer keeps it.
#[derive(Debug, Clone)]
pub struct ClipboardItem {
    pub id: i64,
    /// `"text"` or `"image"`.
    pub content_type: String,
    /// Fingerprint of the content, the deduplication key.
    pub content_hash: String,
    pub text_content: Option<String>,
    pub image_path: Option<String>,
    pub thumbnail_path: Option<String>,
    pub file_size: i64,
    pub source_app: Option<String>,
    pub created_at: String,
    pub updated_at: String,
}

/// User preferences.
#[derive(Debug, Clone)]
pub struct Settings {
    pub shortcut: String,
    pub max_items: i32,
    pub max_days: i32,
    pub max_file_size_mb: i32,
}

/// What a `Settings` value holds, with the shortcut as a character sequence.
pub struct SettingsView {
    pub shortcut: Seq<char>,
    pub max_items: int,
    pub max_days: int,
    pub max_file_size_mb: int,
}

impl View for Settings {
    type V = SettingsView;

    open spec fn view(&self) -> SettingsView {
        SettingsView {
            shortcut: self.shortcut@,
            max_items: self.max_items as int,
            max_days: self.max_days as int,
            max_file_size_mb: self.max_file_size_mb as int,
        }
    }
}

/// The settings a fresh installation starts with.
pub open spec fn default_settings() -> SettingsView {
    SettingsView {
        shortcut: "CommandOrControl+Shift+V"@,
        max_items: 1000,
        max_days: 30,
        max_file_size_mb: 10,
    }
}

impl Default for Settings {
    fn default() -> (settings: Self)
        ensures
            settings@ == default_settings(),
    {
        Settings {
            shortcut: "CommandOrControl+Shift+V".to_string(),
            max_items: 1000,
            max_days: 30,
            max_file_size_mb: 10,
        }
    }
}

} // verus!
