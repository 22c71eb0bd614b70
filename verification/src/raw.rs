//! One hardware-layer reading, and the hardware codes of the hat axes.

use vstd::prelude::*;

use crate::capability::Capability;
use crate::value::InputValue;

verus! {

/// The hardware code of the horizontal axis of the first hat switch.
pub const HAT0X_CODE: u16 = 16;

/// The hardware code of the vertical axis of the first hat switch.
pub const HAT0Y_CODE: u16 = 17;

/// One reading captured from a physical device: the axis or button code, the
/// raw signed value, the reading's own default classification (what the
/// signal means when no extra context is needed), and its normalized value.
#[derive(Debug, Clone, Copy)]
pub struct RawEvent {
    /// The hardware axis or button code of the reading.
    pub code: u16,
    /// The raw signed value reported by the hardware.
    pub value: i32,
    /// The reading's own default classification.
    pub capability: Capability,
    /// The normalized value drawn from the reading.
    pub input_value: InputValue,
}

/// Relies on evdev::AbsoluteAxisCode::ABS_HAT0X: the horizontal axis of the
/// first hat switch carries hardware code 16.
#[verifier::external_body]
pub(crate) fn abs_hat0x_code() -> (r: u16)
    ensures
        r == HAT0X_CODE,
{
    evdev::AbsoluteAxisCode::ABS_HAT0X.0
}

/// Relies on evdev::AbsoluteAxisCode::ABS_HAT0Y: the vertical axis of the
/// first hat switch carries hardware code 17.
#[verifier::external_body]
pub(crate) fn abs_hat0y_code() -> (r: u16)
    ensures
        r == HAT0Y_CODE,
{
    evdev::AbsoluteAxisCode::ABS_HAT0Y.0
}

}
