//! The pointer-button state machine: one click fires per rising edge of the
//! raw button-down signal, however long the button is held.

use vstd::prelude::*;

verus! {

/// Whether the previous tick saw the button down.
#[derive(Clone, Copy, Debug, PartialEq, Eq, Structural)]
pub enum PointerState {
    Released,
    Pressed,
}

impl PointerState {
    /// Advance the machine by one tick of the raw button signal. Returns the
    /// next state and whether this tick fires a click: exactly when the
    /// button reads down after previously reading up.
    pub fn step(self, button_down: bool) -> (r: (PointerState, bool))
        ensures
            r.0 == (if button_down {
                PointerState::Pressed
            } else {
                PointerState::Released
            }),
            r.1 == (button_down && self == PointerState::Released),
    {
        if button_down {
            (PointerState::Pressed, matches!(self, PointerState::Released))
        } else {
            (PointerState::Released, false)
        }
    }
}

} // verus!
