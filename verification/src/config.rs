//! The persisted preferences that the runtime reads.

use vstd::prelude::*;

verus! {

/// App-wide preferences.
#[derive(Debug)]
pub struct AppSettings {
    /// The interface language, or `None` to follow the system.
    pub language: Option<String>,
    /// Whether OpenLogi starts when the user logs in.
    pub launch_at_login: bool,
    /// Whether to ask for a new version once per launch.
    pub check_for_updates: bool,
    /// Whether the tray or menu-bar icon is shown.
    pub show_in_menu_bar: bool,
    /// Whether holding a side button repeats its action.
    pub key_repeat_enabled: bool,
    /// Milliseconds to hold before the repeat begins.
    pub key_repeat_delay_ms: u32,
    /// Milliseconds between repeats.
    pub key_repeat_interval_ms: u32,
}

} // verus!
