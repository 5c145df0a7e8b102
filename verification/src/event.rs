//! Events the loop reacts to, as plain values handed in by the surrounding
//! program: a menu selection carrying the selected item's identity, and a
//! tray interaction. Only a left-button press toggles the color variant; only
//! the quit item's identity requests termination.

use vstd::prelude::*;

verus! {

/// A mouse button of a tray interaction.
#[derive(Clone, Copy, Debug, PartialEq, Eq, Structural)]
pub enum MouseButton {
    Left,
    Right,
    Middle,
}

/// Whether the button was pressed or released.
#[derive(Clone, Copy, Debug, PartialEq, Eq, Structural)]
pub enum MouseButtonState {
    Down,
    Up,
}

/// A tray interaction: a click with its button and press state, or any other
/// interaction (motion, hover), which the loop ignores.
#[derive(Clone, Copy, Debug, PartialEq, Eq, Structural)]
pub enum TrayEvent {
    Click { button: MouseButton, button_state: MouseButtonState },
    Other,
}

/// Whether a polled tray event is a left-button press, the one interaction
/// that toggles the color variant.
pub open spec fn is_left_down(e: Option<TrayEvent>) -> bool {
    e matches Some(
        TrayEvent::Click { button: MouseButton::Left, button_state: MouseButtonState::Down },
    )
}

/// Tests a polled tray event for a left-button press.
pub fn left_down(e: &Option<TrayEvent>) -> (r: bool)
    ensures
        r == is_left_down(*e),
{
    match e {
        Option::Some(
            TrayEvent::Click {
                button: MouseButton::Left,
                button_state: MouseButtonState::Down,
            },
        ) => true,
        _ => false,
    }
}

/// Whether a polled menu event carries the quit item's identity.
pub open spec fn is_quit(e: Option<u64>, quit_id: u64) -> bool {
    e == Some(quit_id)
}

} // verus!
