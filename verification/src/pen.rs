//! The pen state machine.
//!
//! Two states, `Up` and `Down`, starting `Up`. A press of the primary mouse
//! button puts the pen down and a release of it lifts the pen; presses and
//! releases of any other button leave the state alone. There is no terminal
//! state: the machine persists for the lifetime of the session.

use vstd::prelude::*;

verus! {

/// Whether the simulated drawing instrument is on the canvas.
#[derive(Copy, Clone, PartialEq, Eq, Structural, Debug)]
pub enum PenState {
    Up,
    Down,
}

/// The mouse buttons the pen distinguishes: the primary button drives the
/// pen; every other button is lumped together and ignored.
#[derive(Copy, Clone, PartialEq, Eq, Structural, Debug)]
pub enum MouseButton {
    Primary,
    Other,
}

impl PenState {
    /// The state after a press of `button`.
    pub open spec fn spec_after_press(self, button: MouseButton) -> PenState {
        if button is Primary {
            PenState::Down
        } else {
            self
        }
    }

    /// The state after a release of `button`.
    pub open spec fn spec_after_release(self, button: MouseButton) -> PenState {
        if button is Primary {
            PenState::Up
        } else {
            self
        }
    }

    /// Applies a press of `button`.
    pub fn after_press(self, button: MouseButton) -> (r: PenState)
        ensures
            r == self.spec_after_press(button),
    {
        match button {
            MouseButton::Primary => PenState::Down,
            MouseButton::Other => self,
        }
    }

    /// Applies a release of `button`.
    pub fn after_release(self, button: MouseButton) -> (r: PenState)
        ensures
            r == self.spec_after_release(button),
    {
        match button {
            MouseButton::Primary => PenState::Up,
            MouseButton::Other => self,
        }
    }
}

/// Law: the pen toggles exactly on primary presses and releases. A press
/// while `Up` yields `Down`; a release while `Down` yields `Up`; a press
/// while already `Down` (or a release while already `Up`) changes nothing;
/// any other button never changes the state.
pub proof fn lemma_pen_toggle(s: PenState)
    ensures
        PenState::Up.spec_after_press(MouseButton::Primary) == PenState::Down,
        PenState::Down.spec_after_release(MouseButton::Primary) == PenState::Up,
        PenState::Down.spec_after_press(MouseButton::Primary) == PenState::Down,
        PenState::Up.spec_after_release(MouseButton::Primary) == PenState::Up,
        s.spec_after_press(MouseButton::Other) == s,
        s.spec_after_release(MouseButton::Other) == s,
{
}

} // verus!
