//! The normalized value carried by an event.

use vstd::prelude::*;

verus! {

/// A normalized input magnitude or boolean, independent of how the event's
/// capability was derived.
#[derive(Debug, Clone, Copy, PartialEq, Eq, Structural)]
pub enum InputValue {
    /// No payload.
    Empty,
    /// A boolean (pressed or released) payload.
    Bool(bool),
}

impl InputValue {
    /// Whether this value represents a pressed or otherwise active state.
    pub open spec fn spec_pressed(self) -> bool {
        match self {
            InputValue::Empty => false,
            InputValue::Bool(b) => b,
        }
    }

    /// Returns whether this value represents a pressed or otherwise active
    /// state.
    pub fn pressed(&self) -> (r: bool)
        ensures
            r == self.spec_pressed(),
    {
        match self {
            InputValue::Empty => false,
            InputValue::Bool(b) => *b,
        }
    }
}

}
