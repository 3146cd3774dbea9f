//! The window and tray decisions of the desktop shell.

use vstd::prelude::*;

verus! {

/// What happens to a window.
#[derive(PartialEq, Eq, Structural, Debug, Clone, Copy)]
pub enum WindowAction {
    Hide,
    ShowAndFocus,
}

/// Toggling the main window hides it when visible and otherwise shows and
/// focuses it (a window whose visibility cannot be read counts as hidden).
pub fn main_window_toggle(visible: Option<bool>) -> (r: WindowAction)
    ensures
        visible == Some(true) ==> r == WindowAction::Hide,
        visible != Some(true) ==> r == WindowAction::ShowAndFocus,
{
    match visible {
        Some(true) => WindowAction::Hide,
        _ => WindowAction::ShowAndFocus,
    }
}

/// What a tray menu entry does.
#[derive(PartialEq, Eq, Structural, Debug, Clone, Copy)]
pub enum TrayCommand {
    ToggleMain,
    Quit,
    Ignore,
}

/// The identifier of the tray entry that shows or hides the main window.
pub const TOGGLE_ID: &'static str = "toggle";

/// The identifier of the tray entry that quits.
pub const QUIT_ID: &'static str = "quit";

/// The command of the tray menu entry `id`.
pub fn menu_command(id: &str) -> (r: TrayCommand)
    ensures
        id@ == TOGGLE_ID@ ==> r == TrayCommand::ToggleMain,
        id@ == QUIT_ID@ ==> r == TrayCommand::Quit,
        id@ != TOGGLE_ID@ && id@ != QUIT_ID@ ==> r == TrayCommand::Ignore,
{
    proof {
        reveal_strlit("toggle");
        reveal_strlit("quit");
    }
    assert(TOGGLE_ID@[0] != QUIT_ID@[0]);
    let given = String::from_str(id);
    if given == String::from_str(TOGGLE_ID) {
        TrayCommand::ToggleMain
    } else if given == String::from_str(QUIT_ID) {
        TrayCommand::Quit
    } else {
        TrayCommand::Ignore
    }
}

/// Whether a click on the tray icon toggles the main window: only the
/// release of the left button does, since a click also reports its press.
pub fn tray_click_toggles(left_button: bool, released: bool) -> (r: bool)
    ensures
        r == (left_button && released),
{
    left_button && released
}

} // verus!
