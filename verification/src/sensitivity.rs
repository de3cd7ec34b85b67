//! The shared sensitivity state: one bound, switched between a narrow and a
//! wide value by the button handler. The application keeps a value of this
//! type in its interrupt-safe cell; every method here is pure state logic.

use vstd::prelude::*;

verus! {

/// The narrow bound: a small dead zone, reached through button B.
pub const BOUND_NARROW: i32 = 400;

/// The wide bound: a large dead zone, reached through button A.
pub const BOUND_WIDE: i32 = 1200;

/// The sensitivity bound shared between the button handler and the control
/// loop. The application must read and write it only inside one and the
/// same critical section, so that the handler's update is seen whole.
pub struct SensitivityState {
    pub bound: i32,
}

impl SensitivityState {
    /// The state invariant: the bound is always one of the two configured
    /// values, never zero or negative.
    pub open spec fn is_valid(self) -> bool {
        self.bound == BOUND_NARROW || self.bound == BOUND_WIDE
    }

    /// The startup state: the wide bound.
    pub fn new() -> (s: Self)
        ensures
            s.is_valid(),
            s.bound == BOUND_WIDE,
    {
        SensitivityState { bound: BOUND_WIDE }
    }

    /// Reads the current bound.
    pub fn bound(&self) -> (b: i32)
        ensures
            b == self.bound,
    {
        self.bound
    }

    /// The button handler's decision: button A alone selects the wide
    /// bound, button B alone the narrow one, and both or neither leave the
    /// state unchanged. The caller clears both channels' triggered flags
    /// afterward in every case.
    pub fn on_button_event(&mut self, a_triggered: bool, b_triggered: bool)
        requires
            old(self).is_valid(),
        ensures
            final(self).is_valid(),
            a_triggered && !b_triggered ==> final(self).bound == BOUND_WIDE,
            !a_triggered && b_triggered ==> final(self).bound == BOUND_NARROW,
            a_triggered == b_triggered ==> final(self).bound == old(self).bound,
    {
        if a_triggered && !b_triggered {
            self.bound = BOUND_WIDE;
        } else if !a_triggered && b_triggered {
            self.bound = BOUND_NARROW;
        }
    }
}

} // verus!
