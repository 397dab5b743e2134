//! Small decisions of the application around the recorder: the greeting,
//! the tray menu and the place of the panel.

use vstd::prelude::*;
use vstd::string::StringExecFns;

verus! {

/// The greeting for `name`.
pub open spec fn greeting(name: Seq<char>) -> Seq<char> {
    "Hello, "@ + name + "! You've been greeted from Rust!"@
}

/// Greets `name`.
pub fn greet(name: &str) -> (text: String)
    ensures
        text@ == greeting(name@),
{
    String::from_str("Hello, ").concat(name).concat("! You've been greeted from Rust!")
}

/// What an entry of the tray menu does.
#[derive(Clone, Copy, Debug, PartialEq, Eq, Structural)]
pub enum TrayAction {
    /// Start or stop the dictation.
    Toggle,
    /// Show and focus the panel.
    ShowPanel,
    /// Show and focus the settings window.
    ShowSettings,
    /// Leave the application.
    Quit,
    /// An entry that is not the menu's: nothing is done.
    Ignore,
}

/// The action of the menu entry with this identifier.
pub open spec fn action_of(id: Seq<char>) -> TrayAction {
    if id == "toggle"@ {
        TrayAction::Toggle
    } else if id == "show"@ {
        TrayAction::ShowPanel
    } else if id == "settings"@ {
        TrayAction::ShowSettings
    } else if id == "quit"@ {
        TrayAction::Quit
    } else {
        TrayAction::Ignore
    }
}

/// Decides what the menu entry with this identifier does.
pub fn tray_action(id: &str) -> (action: TrayAction)
    ensures
        action == action_of(id@),
{
    let id: String = id.to_owned();
    if id == "toggle".to_owned() {
        TrayAction::Toggle
    } else if id == "show".to_owned() {
        TrayAction::ShowPanel
    } else if id == "settings".to_owned() {
        TrayAction::ShowSettings
    } else if id == "quit".to_owned() {
        TrayAction::Quit
    } else {
        TrayAction::Ignore
    }
}

/// Where the panel starts along one axis: a margin away from the far edge
/// of the monitor, and at the near edge where the panel does not fit.
pub open spec fn offset(monitor: u32, panel: u32, margin: i32) -> int {
    let free = monitor - panel - margin;
    if free < 0 {
        0
    } else if free > i32::MAX {
        i32::MAX as int
    } else {
        free
    }
}

/// Places the panel along one axis.
pub fn panel_offset(monitor: u32, panel: u32, margin: i32) -> (at: i32)
    ensures
        at == offset(monitor, panel, margin),
{
    let free: i64 = monitor as i64 - panel as i64 - margin as i64;
    if free < 0 {
        0
    } else if free > i32::MAX as i64 {
        i32::MAX
    } else {
        free as i32
    }
}

} // verus!
