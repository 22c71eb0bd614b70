//! The normalized event and the translation of raw readings into it.

use vstd::prelude::*;

use crate::capability::{Capability, Gamepad, GamepadButton};
use crate::raw::{abs_hat0x_code, abs_hat0y_code, RawEvent, HAT0X_CODE, HAT0Y_CODE};
use crate::value::InputValue;

verus! {

/// A normalized, hardware-independent input event. Target input devices that
/// implement its capability will be able to emit the event.
#[derive(Debug, Clone, Copy)]
pub struct NativeEvent {
    /// The logical capability of the event. Never absent; it may be the
    /// not-representable sentinel.
    pub capability: Capability,
    /// The original, untranslated capability, present exactly when the event
    /// was produced by translating a different raw signal into `capability`.
    /// Its presence is the translation flag; there is no separate boolean.
    pub source_capability: Option<Capability>,
    /// The normalized value drawn from the raw reading that produced the
    /// event.
    pub value: InputValue,
}

/// The hat-switch decision table for one axis, whose opposite directions are
/// the buttons `neg` (raw value -1) and `pos` (raw value +1). A reading of 0
/// means that some direction was released; it is attributed to the direction
/// of the previous non-neutral reading, and to the sentinel when no such
/// reading is known.
pub open spec fn spec_hat_button(
    neg: GamepadButton,
    pos: GamepadButton,
    value: int,
    previous: Option<i32>,
) -> Capability {
    if value == -1 {
        Capability::Gamepad(Gamepad::Button(neg))
    } else if value == 1 {
        Capability::Gamepad(Gamepad::Button(pos))
    } else if value == 0 {
        match previous {
            Some(p) => if p == -1 {
                Capability::Gamepad(Gamepad::Button(neg))
            } else if p == 1 {
                Capability::Gamepad(Gamepad::Button(pos))
            } else {
                Capability::NotImplemented
            },
            None => Capability::NotImplemented,
        }
    } else {
        Capability::NotImplemented
    }
}

/// The capability a translated raw reading carries: a hat-axis reading goes
/// through the decision table for its axis, any other reading presented with
/// a previous hat state is not representable, and any other reading presented
/// without one keeps its own default classification.
pub open spec fn spec_translate(
    code: u16,
    value: int,
    previous: Option<i32>,
    own: Capability,
) -> Capability {
    if code == HAT0X_CODE {
        spec_hat_button(GamepadButton::DPadLeft, GamepadButton::DPadRight, value, previous)
    } else if code == HAT0Y_CODE {
        spec_hat_button(GamepadButton::DPadUp, GamepadButton::DPadDown, value, previous)
    } else if previous is Some {
        Capability::NotImplemented
    } else {
        own
    }
}

/// Decodes one hat-axis reading by the decision table of its axis.
fn hat_button(
    neg: GamepadButton,
    pos: GamepadButton,
    value: i32,
    previous: Option<i32>,
) -> (r: Capability)
    ensures
        r == spec_hat_button(neg, pos, value as int, previous),
{
    if value == -1 {
        Capability::Gamepad(Gamepad::Button(neg))
    } else if value == 1 {
        Capability::Gamepad(Gamepad::Button(pos))
    } else if value == 0 {
        match previous {
            Some(p) => if p == -1 {
                Capability::Gamepad(Gamepad::Button(neg))
            } else if p == 1 {
                Capability::Gamepad(Gamepad::Button(pos))
            } else {
                Capability::NotImplemented
            },
            None => Capability::NotImplemented,
        }
    } else {
        Capability::NotImplemented
    }
}

impl NativeEvent {
    /// Returns a new event with the given capability and value and no source
    /// capability.
    pub fn new(capability: Capability, value: InputValue) -> (r: NativeEvent)
        ensures
            r.capability == capability,
            r.value == value,
            r.source_capability is None,
    {
        NativeEvent { capability, value, source_capability: None }
    }

    /// Returns a new event with the original, untranslated source capability,
    /// the translated capability, and the value.
    pub fn new_translated(
        source_capability: Capability,
        capability: Capability,
        value: InputValue,
    ) -> (r: NativeEvent)
        ensures
            r.capability == capability,
            r.value == value,
            r.source_capability == Some(source_capability),
    {
        NativeEvent { capability, source_capability: Some(source_capability), value }
    }

    /// Returns the capability that this event implements.
    pub fn as_capability(&self) -> (r: Capability)
        ensures
            r == self.capability,
    {
        self.capability
    }

    /// Returns the value of this event.
    pub fn get_value(&self) -> (r: InputValue)
        ensures
            r == self.value,
    {
        self.value
    }

    /// Returns true if this event is the result of a translation and so has
    /// a source capability.
    pub fn is_translated(&self) -> (r: bool)
        ensures
            r == (self.source_capability is Some),
    {
        self.source_capability.is_some()
    }

    /// Marks the event as a translation of the given source capability. The
    /// event's own capability and value are unchanged.
    pub fn set_source_capability(&mut self, cap: Capability)
        ensures
            final(self).capability == old(self).capability,
            final(self).value == old(self).value,
            final(self).source_capability == Some(cap),
    {
        self.source_capability = Some(cap);
    }

    /// Returns the untranslated source capability, when the event carries
    /// one.
    pub fn get_source_capability(&self) -> (r: Option<Capability>)
        ensures
            r == self.source_capability,
    {
        self.source_capability
    }

    /// Returns whether the event is pressed, as its value reports it.
    pub fn pressed(&self) -> (r: bool)
        ensures
            r == self.value.spec_pressed(),
    {
        self.value.pressed()
    }

    /// Translates one raw reading into a normalized event. `hat_state` is the
    /// last non-neutral raw value the caller's tracker holds for the
    /// reading's axis, or `None` when the tracker holds no entry for it.
    ///
    /// The caller owns the tracker and must present the readings of each hat
    /// axis in the order the hardware produced them, recording each reading's
    /// raw value in the tracker after this call returns and before the next
    /// reading of that axis is translated; out-of-order or dropped readings
    /// silently corrupt the release-direction inference.
    pub fn from_evdev_raw(event: RawEvent, hat_state: Option<i32>) -> (r: NativeEvent)
        ensures
            r.capability == spec_translate(event.code, event.value as int, hat_state, event.capability),
            r.value == event.input_value,
            r.source_capability is None,
    {
        let hat0x = abs_hat0x_code();
        let hat0y = abs_hat0y_code();
        let capability: Capability = if event.code == hat0x {
            hat_button(GamepadButton::DPadLeft, GamepadButton::DPadRight, event.value, hat_state)
        } else if event.code == hat0y {
            hat_button(GamepadButton::DPadUp, GamepadButton::DPadDown, event.value, hat_state)
        } else if hat_state.is_some() {
            Capability::NotImplemented
        } else {
            event.capability
        };
        NativeEvent { capability, value: event.input_value, source_capability: None }
    }
}

impl From<RawEvent> for NativeEvent {
    /// Converts a raw reading with no extra context: capability and value are
    /// the reading's own, and no source capability is attached.
    fn from(item: RawEvent) -> (r: NativeEvent) {
        NativeEvent {
            capability: item.capability,
            value: item.input_value,
            source_capability: None,
        }
    }
}

impl vstd::std_specs::convert::FromSpecImpl<RawEvent> for NativeEvent {
    open spec fn obeys_from_spec() -> bool {
        true
    }

    open spec fn from_spec(t: RawEvent) -> NativeEvent {
        NativeEvent {
            capability: t.capability,
            value: t.input_value,
            source_capability: None,
        }
    }
}

/// Law: whatever the previous state, a horizontal hat reading of -1 is the
/// left d-pad button and a reading of +1 is the right one.
pub proof fn lemma_horizontal_press(value: int, previous: Option<i32>, own: Capability)
    requires
        value == -1 || value == 1,
    ensures
        spec_translate(HAT0X_CODE, value, previous, own) == Capability::Gamepad(
            Gamepad::Button(
                if value == -1 {
                    GamepadButton::DPadLeft
                } else {
                    GamepadButton::DPadRight
                },
            ),
        ),
{
}

/// Law: whatever the previous state, a vertical hat reading of -1 is the up
/// d-pad button and a reading of +1 is the down one.
pub proof fn lemma_vertical_press(value: int, previous: Option<i32>, own: Capability)
    requires
        value == -1 || value == 1,
    ensures
        spec_translate(HAT0Y_CODE, value, previous, own) == Capability::Gamepad(
            Gamepad::Button(
                if value == -1 {
                    GamepadButton::DPadUp
                } else {
                    GamepadButton::DPadDown
                },
            ),
        ),
{
}

/// Law: on a hat axis, a raw value outside -1, 0 and +1 yields the sentinel,
/// regardless of the previous state.
pub proof fn lemma_hat_out_of_range_is_sentinel(
    code: u16,
    value: int,
    previous: Option<i32>,
    own: Capability,
)
    requires
        code == HAT0X_CODE || code == HAT0Y_CODE,
        value != -1 && value != 0 && value != 1,
    ensures
        spec_translate(code, value, previous, own) == Capability::NotImplemented,
{
}

/// Law: on a hat axis, a neutral reading whose previous state is absent or
/// itself neutral cannot be attributed to a direction and yields the
/// sentinel.
pub proof fn lemma_hat_neutral_without_direction_is_sentinel(
    code: u16,
    previous: Option<i32>,
    own: Capability,
)
    requires
        code == HAT0X_CODE || code == HAT0Y_CODE,
        previous is None || previous->0 != -1 && previous->0 != 1,
    ensures
        spec_translate(code, 0, previous, own) == Capability::NotImplemented,
{
}

/// Law: a reading on a non-hat axis presented without a previous state keeps
/// the reading's own default classification; the hat table plays no part.
pub proof fn lemma_non_hat_keeps_own_classification(code: u16, value: int, own: Capability)
    requires
        code != HAT0X_CODE,
        code != HAT0Y_CODE,
    ensures
        spec_translate(code, value, Option::<i32>::None, own) == own,
{
}

}
