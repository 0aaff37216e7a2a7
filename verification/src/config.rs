//! Application configuration and in-memory application state.

use vstd::prelude::*;
use crate::text::str_eq;

verus! {

/// What closing the main window does.
#[derive(Debug, Clone, Copy, PartialEq, Eq, Structural)]
pub enum CloseBehavior {
    /// Quit the application outright.
    Direct,
    /// Keep running, minimized to the tray.
    MinimizeToTray,
}

impl CloseBehavior {
    pub fn as_str(&self) -> (r: &'static str)
        ensures
            *self == CloseBehavior::Direct ==> r@ == "direct"@,
            *self == CloseBehavior::MinimizeToTray ==> r@ == "minimize_to_tray"@,
    {
        match self {
            CloseBehavior::Direct => "direct",
            CloseBehavior::MinimizeToTray => "minimize_to_tray",
        }
    }

    pub fn from_str(s: &str) -> (r: Option<CloseBehavior>)
        ensures
            r == (if s@ == "direct"@ {
                Some(CloseBehavior::Direct)
            } else if s@ == "minimize_to_tray"@ {
                Some(CloseBehavior::MinimizeToTray)
            } else {
                None::<CloseBehavior>
            }),
    {
        if str_eq(s, "direct") {
            Some(CloseBehavior::Direct)
        } else if str_eq(s, "minimize_to_tray") {
            Some(CloseBehavior::MinimizeToTray)
        } else {
            None
        }
    }
}

/// Mutable per-session application state.
pub struct AppState {
    pub hide_hotkey: Option<String>,
    pub close_behavior: CloseBehavior,
    pub auto_launch: bool,
}

impl AppState {
    pub fn new() -> (r: Self)
        ensures
            r.hide_hotkey is None,
            r.close_behavior == CloseBehavior::Direct,
            !r.auto_launch,
    {
        AppState {
            hide_hotkey: None,
            close_behavior: CloseBehavior::Direct,
            auto_launch: false,
        }
    }
}

/// The close behavior a fresh configuration starts with.
pub fn default_close_behavior() -> (r: String)
    ensures
        r@ == "direct"@,
{
    String::from_str("direct")
}

/// Whether launching at login is on by default.
pub fn default_auto_launch() -> (r: bool)
    ensures
        !r,
{
    false
}

/// The persisted application configuration. Loading and saving it are file
/// I/O and live outside this crate; the record itself and every change made
/// to it are plain values.
#[derive(Debug, Clone, PartialEq)]
pub struct AppConfig {
    pub auto_launch: bool,
    pub close_behavior: String,
    pub global_shortcut: Option<String>,
    /// Custom data directory; `None` means the platform default is used.
    pub data_path: Option<String>,
}

impl Default for AppConfig {
    fn default() -> (r: Self)
        ensures
            !r.auto_launch,
            r.close_behavior@ == "direct"@,
            r.global_shortcut is None,
            r.data_path is None,
    {
        AppConfig {
            auto_launch: false,
            close_behavior: default_close_behavior(),
            global_shortcut: None,
            data_path: None,
        }
    }
}

impl AppConfig {
    pub fn update_auto_launch(&mut self, enabled: bool)
        ensures
            *final(self) == (AppConfig { auto_launch: enabled, ..*old(self) }),
    {
        self.auto_launch = enabled;
    }

    pub fn update_close_behavior(&mut self, behavior: String)
        ensures
            *final(self) == (AppConfig { close_behavior: behavior, ..*old(self) }),
    {
        self.close_behavior = behavior;
    }

    pub fn update_global_shortcut(&mut self, shortcut: Option<String>)
        ensures
            *final(self) == (AppConfig { global_shortcut: shortcut, ..*old(self) }),
    {
        self.global_shortcut = shortcut;
    }

    pub fn update_data_path(&mut self, path: Option<String>)
        ensures
            *final(self) == (AppConfig { data_path: path, ..*old(self) }),
    {
        self.data_path = path;
    }

    /// The data directory this configuration selects, given the platform
    /// default: the custom path when one is set, the default otherwise.
    pub fn effective_data_path(&self, default_path: String) -> (r: String)
        ensures
            self.data_path is Some ==> r == self.data_path->0,
            self.data_path is None ==> r == default_path,
    {
        match &self.data_path {
            Some(p) => p.clone(),
            None => default_path,
        }
    }
}

} // verus!
