//! What a click on the tray icon or its menu does to the main window.

use vstd::prelude::*;

verus! {

/// A tray event, as far as the decision needs it.
#[derive(Debug)]
pub enum TrayEvent {
    LeftClick,
    MenuItemClick { id: String },
    Other,
}

/// What to do with the main window or the application.
#[derive(Clone, Copy, Debug, PartialEq, Eq, Structural)]
pub enum TrayAction {
    Nothing,
    Hide,
    /// Show and focus the window where the click happened.
    ShowAtClick,
    /// Show and focus the window at the centre of the screen.
    ShowCentered,
    Quit,
}

/// A left click toggles the window (shown centred where the platform asks
/// for it, else at the click); the menu's `quit` item quits and its `show`
/// item shows the window centred; anything else does nothing.
pub open spec fn tray_action_of(event: TrayEvent, window_visible: bool, center_on_click: bool) -> TrayAction {
    match event {
        TrayEvent::LeftClick => if window_visible {
            TrayAction::Hide
        } else if center_on_click {
            TrayAction::ShowCentered
        } else {
            TrayAction::ShowAtClick
        },
        TrayEvent::MenuItemClick { id } => if id@ == "quit"@ {
            TrayAction::Quit
        } else if id@ == "show"@ {
            TrayAction::ShowCentered
        } else {
            TrayAction::Nothing
        },
        TrayEvent::Other => TrayAction::Nothing,
    }
}

/// Decides what a tray event does, given whether the window is visible now.
pub fn tray_action(event: &TrayEvent, window_visible: bool, center_on_click: bool) -> (r: TrayAction)
    ensures
        r == tray_action_of(*event, window_visible, center_on_click),
{
    match event {
        TrayEvent::LeftClick => {
            if window_visible {
                TrayAction::Hide
            } else if center_on_click {
                TrayAction::ShowCentered
            } else {
                TrayAction::ShowAtClick
            }
        },
        TrayEvent::MenuItemClick { id } => {
            let quit = "quit".to_owned();
            let show = "show".to_owned();
            proof {
                reveal_strlit("quit");
                reveal_strlit("show");
            }
            if *id == quit {
                TrayAction::Quit
            } else if *id == show {
                TrayAction::ShowCentered
            } else {
                TrayAction::Nothing
            }
        },
        TrayEvent::Other => TrayAction::Nothing,
    }
}

} // verus!
