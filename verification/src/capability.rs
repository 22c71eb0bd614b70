//! The taxonomy of logical input signals.

use vstd::prelude::*;

verus! {

/// A logical gamepad button, independent of the originating hardware.
#[derive(Debug, Clone, Copy, PartialEq, Eq, Structural)]
pub enum GamepadButton {
    /// The primary (south) face button.
    South,
    /// D-pad up.
    DPadUp,
    /// D-pad down.
    DPadDown,
    /// D-pad left.
    DPadLeft,
    /// D-pad right.
    DPadRight,
}

/// A logical gamepad signal.
#[derive(Debug, Clone, Copy, PartialEq, Eq, Structural)]
pub enum Gamepad {
    /// A discrete gamepad button.
    Button(GamepadButton),
}

/// The classification of a logical input signal. Target input devices that
/// implement a capability are able to emit events that carry it.
#[derive(Debug, Clone, Copy, PartialEq, Eq, Structural)]
pub enum Capability {
    /// The sentinel: the raw input has no valid logical mapping in the current
    /// context. Downstream consumers are expected to filter such events out.
    NotImplemented,
    /// A gamepad signal.
    Gamepad(Gamepad),
}

}
