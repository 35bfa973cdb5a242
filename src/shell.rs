//! Decisions of the desktop shell around the worker: window toggling, tray
//! menu routing and the global hotkey setting.

use vstd::prelude::*;
use crate::config::{hotkey_of, normalize_hotkey};

verus! {

/// What toggling the main window does.
#[derive(Clone, Copy, Debug, PartialEq, Eq, Structural)]
pub enum WindowToggle {
    /// The window is visible and focused: hide it.
    Hide,
    /// Otherwise: show it and give it focus.
    ShowAndFocus,
}

/// Decides how to toggle the main window from its visibility and focus.
pub fn toggle_window_visibility(visible: bool, focused: bool) -> (r: WindowToggle)
    ensures
        r == (if visible && focused { WindowToggle::Hide } else { WindowToggle::ShowAndFocus }),
{
    if visible && focused {
        WindowToggle::Hide
    } else {
        WindowToggle::ShowAndFocus
    }
}

/// What a tray menu item asks for.
#[derive(Clone, Copy, Debug, PartialEq, Eq, Structural)]
pub enum TrayCommand {
    /// Show and focus the main window.
    Show,
    /// Quit the application.
    Quit,
    /// An item this shell does not handle.
    Ignore,
}

fn same_text(a: &str, b: &str) -> (r: bool)
    ensures
        r == (a@ == b@),
{
    let n = a.unicode_len();
    if n != b.unicode_len() {
        return false;
    }
    let mut i: usize = 0;
    while i < n
        invariant
            i <= n,
            n == a@.len(),
            n == b@.len(),
            forall|j: int| 0 <= j < i ==> a@[j] == b@[j],
        decreases n - i,
    {
        if a.get_char(i) != b.get_char(i) {
            return false;
        }
        i = i + 1;
    }
    assert(a@ =~= b@);
    true
}

/// Routes a tray menu item by its identifier.
pub fn tray_command(id: &str) -> (r: TrayCommand)
    ensures
        r == (if id@ == "show"@ {
            TrayCommand::Show
        } else if id@ == "quit"@ {
            TrayCommand::Quit
        } else {
            TrayCommand::Ignore
        }),
{
    if same_text(id, "show") {
        TrayCommand::Show
    } else if same_text(id, "quit") {
        TrayCommand::Quit
    } else {
        TrayCommand::Ignore
    }
}

/// The hotkey used when none is configured or the configured one is invalid.
pub open spec fn default_hotkey() -> Seq<char> {
    "Command+Shift+O"@
}

/// Renders the default hotkey.
pub fn default_hotkey_text() -> (r: String)
    ensures
        r@ == default_hotkey(),
{
    String::from_str("Command+Shift+O")
}

/// The hotkey to register: the configured one, normalised, else the default.
pub fn hotkey_setting(configured: &Option<String>) -> (r: String)
    ensures
        r@ == match *configured {
            Some(s) => hotkey_of(s@),
            None => hotkey_of(default_hotkey()),
        },
{
    match configured {
        Some(s) => normalize_hotkey(s.as_str()),
        None => {
            let d = default_hotkey_text();
            normalize_hotkey(d.as_str())
        },
    }
}

} // verus!
