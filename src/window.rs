//! The popup window's visibility: two states driven by two events, and the
//! settings menu's choice between focusing and opening its window.
use vstd::prelude::*;

use crate::text::text_equals;

verus! {

/// Whether the popup window is shown.
#[derive(Debug, Clone, Copy, PartialEq, Eq, Structural)]
pub enum WindowState {
    Visible,
    Hidden,
}

/// What happens to the popup window.
#[derive(Debug, Clone, Copy, PartialEq, Eq, Structural)]
pub enum WindowEvent {
    /// The global shortcut was pressed.
    HotkeyPressed,
    /// The window lost the input focus.
    FocusLost,
}

/// What the host does to the window.
#[derive(Debug, Clone, Copy, PartialEq, Eq, Structural)]
pub enum WindowAction {
    Hide,
    /// Show the window and give it the input focus.
    ShowAndFocus,
}

/// The state after an event, and the action that brings it about.
pub open spec fn window_step(state: WindowState, event: WindowEvent) -> (WindowState, WindowAction) {
    match event {
        WindowEvent::HotkeyPressed => match state {
            WindowState::Visible => (WindowState::Hidden, WindowAction::Hide),
            WindowState::Hidden => (WindowState::Visible, WindowAction::ShowAndFocus),
        },
        WindowEvent::FocusLost => (WindowState::Hidden, WindowAction::Hide),
    }
}

/// The shortcut toggles the window; losing the focus hides it.
pub fn next_window_state(state: WindowState, event: WindowEvent) -> (r: (
    WindowState,
    WindowAction,
))
    ensures
        r == window_step(state, event),
{
    match event {
        WindowEvent::HotkeyPressed => match state {
            WindowState::Visible => (WindowState::Hidden, WindowAction::Hide),
            WindowState::Hidden => (WindowState::Visible, WindowAction::ShowAndFocus),
        },
        WindowEvent::FocusLost => (WindowState::Hidden, WindowAction::Hide),
    }
}

/// Pressing the shortcut twice leaves the window as it was.
pub proof fn lemma_hotkey_twice(state: WindowState)
    ensures
        window_step(window_step(state, WindowEvent::HotkeyPressed).0, WindowEvent::HotkeyPressed).0
            == state,
{
}

/// The identifier of the settings menu item.
pub const SETTINGS_MENU_ID: &'static str = "settings";

/// What a menu event asks of the host.
#[derive(Debug, Clone, Copy, PartialEq, Eq, Structural)]
pub enum MenuAction {
    /// Nothing: the event is not the settings item's.
    Ignore,
    /// Show the settings window that exists and give it the focus.
    FocusSettings,
    /// Create the settings window and show it.
    OpenSettings,
}

/// The action for a menu event with item `id`, given whether the settings
/// window already exists.
pub fn menu_action(id: &str, settings_open: bool) -> (r: MenuAction)
    ensures
        id@ != SETTINGS_MENU_ID@ ==> r == MenuAction::Ignore,
        id@ == SETTINGS_MENU_ID@ && settings_open ==> r == MenuAction::FocusSettings,
        id@ == SETTINGS_MENU_ID@ && !settings_open ==> r == MenuAction::OpenSettings,
{
    if !text_equals(id, SETTINGS_MENU_ID) {
        MenuAction::Ignore
    } else if settings_open {
        MenuAction::FocusSettings
    } else {
        MenuAction::OpenSettings
    }
}

} // verus!
