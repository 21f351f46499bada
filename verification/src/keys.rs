//! Keyboard state that outlives a single key event.

use vstd::prelude::*;

verus! {

/// How often backspace has been released since the view was last reset.
///
/// The second release in a row asks for a view reset; the state then has to be
/// advanced once more to return to `NotPressed`.
#[derive(Debug, Clone, Copy, PartialEq, Eq, Structural)]
pub enum BackSpaceState {
    NotPressed,
    PressedOnce,
    PressedTwice,
}

impl BackSpaceState {
    /// The state that follows `self` in the cycle
    /// `NotPressed -> PressedOnce -> PressedTwice -> NotPressed`.
    pub open spec fn successor(self) -> BackSpaceState {
        match self {
            BackSpaceState::NotPressed => BackSpaceState::PressedOnce,
            BackSpaceState::PressedOnce => BackSpaceState::PressedTwice,
            BackSpaceState::PressedTwice => BackSpaceState::NotPressed,
        }
    }

    /// Moves to the next state of the cycle.
    pub fn next_state(&mut self)
        ensures
            *final(self) == old(self).successor(),
    {
        match *self {
            BackSpaceState::NotPressed => *self = BackSpaceState::PressedOnce,
            BackSpaceState::PressedOnce => *self = BackSpaceState::PressedTwice,
            BackSpaceState::PressedTwice => *self = BackSpaceState::NotPressed,
        }
    }

    /// Whether the view should be reset now: exactly in `PressedTwice`.
    pub fn should_reset(&self) -> (reset: bool)
        ensures
            reset == (*self == BackSpaceState::PressedTwice),
    {
        match *self {
            BackSpaceState::PressedTwice => true,
            _ => false,
        }
    }
}

} // verus!
