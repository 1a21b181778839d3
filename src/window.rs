//! How the main window answers the tray menu and the global shortcut.

use vstd::prelude::*;

verus! {

/// Label of the application's main window.
pub const MAIN_WINDOW_LABEL: &'static str = "main";

/// Identifier of the tray menu item that quits the application.
pub const QUIT_ITEM_ID: &'static str = "quit";

/// Identifier of the tray menu item that brings the window back.
pub const SHOW_ITEM_ID: &'static str = "show";

/// What a tray menu selection asks for.
#[derive(PartialEq, Eq, Structural, Debug, Clone, Copy)]
pub enum MenuCommand {
    Quit,
    Show,
    Ignore,
}

/// What the global shortcut does to the main window.
#[derive(PartialEq, Eq, Structural, Debug, Clone, Copy)]
pub enum WindowAction {
    Hide,
    ShowAndFocus,
}

/// The command of the menu item with identifier `id`.
pub open spec fn menu_command_of(id: Seq<char>) -> MenuCommand {
    if id == QUIT_ITEM_ID@ {
        MenuCommand::Quit
    } else if id == SHOW_ITEM_ID@ {
        MenuCommand::Show
    } else {
        MenuCommand::Ignore
    }
}

/// Maps a tray menu item identifier to its command; unknown items are ignored.
pub fn menu_command(id: &str) -> (c: MenuCommand)
    ensures
        c == menu_command_of(id@),
{
    let id = String::from_str(id);
    if id == String::from_str(QUIT_ITEM_ID) {
        MenuCommand::Quit
    } else if id == String::from_str(SHOW_ITEM_ID) {
        MenuCommand::Show
    } else {
        MenuCommand::Ignore
    }
}

/// The shortcut toggles the window: a window known to be visible is hidden;
/// one that is hidden, or whose visibility could not be read (`None`), is
/// shown and focused.
pub fn shortcut_action(visible: Option<bool>) -> (a: WindowAction)
    ensures
        a == (if visible == Some(true) {
            WindowAction::Hide
        } else {
            WindowAction::ShowAndFocus
        }),
{
    match visible {
        Some(true) => WindowAction::Hide,
        _ => WindowAction::ShowAndFocus,
    }
}

} // verus!
