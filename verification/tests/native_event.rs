use inputplumber::capability::{Capability, Gamepad, GamepadButton};
use inputplumber::native::NativeEvent;
use inputplumber::raw::{RawEvent, HAT0X_CODE, HAT0Y_CODE};
use inputplumber::value::InputValue;

fn button(b: GamepadButton) -> Capability {
    Capability::Gamepad(Gamepad::Button(b))
}

fn hat_reading(code: u16, value: i32) -> RawEvent {
    RawEvent {
        code,
        value,
        capability: Capability::NotImplemented,
        input_value: InputValue::Bool(value != 0),
    }
}

#[test]
fn plain_event_carries_capability_and_value() {
    let event = NativeEvent::new(button(GamepadButton::South), InputValue::Bool(true));
    assert_eq!(event.as_capability(), button(GamepadButton::South));
    assert_eq!(event.get_value(), InputValue::Bool(true));
    assert!(!event.is_translated());
    assert_eq!(event.get_source_capability(), None);
}

#[test]
fn translated_event_has_source() {
    let event = NativeEvent::new_translated(
        button(GamepadButton::South),
        button(GamepadButton::DPadUp),
        InputValue::Bool(false),
    );
    assert!(event.is_translated());
    assert_eq!(event.get_source_capability(), Some(button(GamepadButton::South)));
    assert_eq!(event.as_capability(), button(GamepadButton::DPadUp));
    assert_eq!(event.get_value(), InputValue::Bool(false));
}

#[test]
fn attach_source_flips_translated_only() {
    let mut event = NativeEvent::new(button(GamepadButton::DPadLeft), InputValue::Bool(true));
    assert!(!event.is_translated());
    event.set_source_capability(button(GamepadButton::South));
    assert!(event.is_translated());
    assert_eq!(event.get_source_capability(), Some(button(GamepadButton::South)));
    assert_eq!(event.as_capability(), button(GamepadButton::DPadLeft));
    assert_eq!(event.get_value(), InputValue::Bool(true));
}

#[test]
fn horizontal_hat_decoding() {
    let left = button(GamepadButton::DPadLeft);
    let right = button(GamepadButton::DPadRight);
    let cases: [(i32, Option<i32>, Capability); 6] = [
        (-1, None, left),
        (1, None, right),
        (0, Some(-1), left),
        (0, Some(1), right),
        (0, Some(0), Capability::NotImplemented),
        (0, None, Capability::NotImplemented),
    ];
    for (value, previous, expected) in cases {
        let event = NativeEvent::from_evdev_raw(hat_reading(HAT0X_CODE, value), previous);
        assert_eq!(event.as_capability(), expected);
        assert!(!event.is_translated());
    }
}

#[test]
fn vertical_hat_decoding() {
    let up = button(GamepadButton::DPadUp);
    let down = button(GamepadButton::DPadDown);
    let cases: [(i32, Option<i32>, Capability); 6] = [
        (-1, None, up),
        (1, None, down),
        (0, Some(-1), up),
        (0, Some(1), down),
        (0, Some(0), Capability::NotImplemented),
        (0, None, Capability::NotImplemented),
    ];
    for (value, previous, expected) in cases {
        let event = NativeEvent::from_evdev_raw(hat_reading(HAT0Y_CODE, value), previous);
        assert_eq!(event.as_capability(), expected);
        assert!(!event.is_translated());
    }
}

#[test]
fn out_of_range_hat_value_is_sentinel() {
    let cases: [(u16, i32, Option<i32>); 6] = [
        (HAT0X_CODE, 2, None),
        (HAT0X_CODE, -3, Some(-1)),
        (HAT0X_CODE, 100, Some(1)),
        (HAT0Y_CODE, 2, Some(0)),
        (HAT0Y_CODE, -128, None),
        (HAT0Y_CODE, 7, Some(1)),
    ];
    for (code, value, previous) in cases {
        let event = NativeEvent::from_evdev_raw(hat_reading(code, value), previous);
        assert_eq!(event.as_capability(), Capability::NotImplemented);
    }
}

#[test]
fn non_hat_reading_self_classifies() {
    let reading = RawEvent {
        code: 304,
        value: 1,
        capability: button(GamepadButton::South),
        input_value: InputValue::Bool(true),
    };
    let event = NativeEvent::from_evdev_raw(reading, None);
    assert_eq!(event.as_capability(), button(GamepadButton::South));
    assert_eq!(event.get_value(), InputValue::Bool(true));
    assert!(!event.is_translated());
}

#[test]
fn non_hat_reading_with_state_is_sentinel() {
    let reading = RawEvent {
        code: 304,
        value: 1,
        capability: button(GamepadButton::South),
        input_value: InputValue::Bool(true),
    };
    let event = NativeEvent::from_evdev_raw(reading, Some(1));
    assert_eq!(event.as_capability(), Capability::NotImplemented);
}

#[test]
fn repeated_reads_are_identical() {
    let event = NativeEvent::new(button(GamepadButton::DPadDown), InputValue::Bool(true));
    assert_eq!(event.as_capability(), event.as_capability());
    assert_eq!(event.get_value(), event.get_value());
    assert_eq!(event.is_translated(), event.is_translated());
    assert_eq!(event.get_source_capability(), event.get_source_capability());
    assert_eq!(event.pressed(), event.pressed());
}

#[test]
fn press_then_release_sequence() {
    let mut tracker: Option<i32> = None;

    let press = NativeEvent::from_evdev_raw(hat_reading(HAT0X_CODE, 1), tracker);
    assert_eq!(press.as_capability(), button(GamepadButton::DPadRight));
    assert!(press.pressed());
    tracker = Some(1);

    let release = NativeEvent::from_evdev_raw(hat_reading(HAT0X_CODE, 0), tracker);
    assert_eq!(release.as_capability(), button(GamepadButton::DPadRight));
    assert!(!release.pressed());
}

#[test]
fn first_vertical_neutral_is_sentinel() {
    let event = NativeEvent::from_evdev_raw(hat_reading(HAT0Y_CODE, 0), None);
    assert_eq!(event.as_capability(), Capability::NotImplemented);
}

#[test]
fn from_raw_reading_keeps_own_classification() {
    let reading = RawEvent {
        code: 304,
        value: 1,
        capability: button(GamepadButton::South),
        input_value: InputValue::Bool(true),
    };
    let event = NativeEvent::from(reading);
    assert_eq!(event.as_capability(), button(GamepadButton::South));
    assert_eq!(event.get_value(), InputValue::Bool(true));
    assert!(!event.is_translated());
}

#[test]
fn pressed_delegates_to_value() {
    let pressed = NativeEvent::new(button(GamepadButton::DPadUp), InputValue::Bool(true));
    assert!(pressed.pressed());
    let released = NativeEvent::new(button(GamepadButton::DPadUp), InputValue::Bool(false));
    assert!(!released.pressed());
    let empty = NativeEvent::new(button(GamepadButton::DPadUp), InputValue::Empty);
    assert!(!empty.pressed());
}
