use gamepad_core::models::AxisValue;
use gamepad_core::utils::{
    axis_for_slot, button_for_slot, map_sdl_axis, map_sdl_button, normalize_sdl_axis,
    normalize_xinput_axis, normalize_xinput_trigger, Axis, Button,
};

fn as_float(value: AxisValue) -> f32 {
    let quotient = value.raw as f32 / value.divisor as f32;
    if value.negated {
        -quotient
    } else {
        quotient
    }
}

const ALL_AXES: [Axis; 6] = [
    Axis::LeftX,
    Axis::LeftY,
    Axis::RightX,
    Axis::RightY,
    Axis::TriggerLeft,
    Axis::TriggerRight,
];

const MAPPED_BUTTONS: [Button; 15] = [
    Button::A,
    Button::B,
    Button::X,
    Button::Y,
    Button::LeftShoulder,
    Button::RightShoulder,
    Button::Back,
    Button::Start,
    Button::Guide,
    Button::LeftStick,
    Button::RightStick,
    Button::DPadUp,
    Button::DPadDown,
    Button::DPadLeft,
    Button::DPadRight,
];

#[test]
fn xinput_axis_maps_zero_to_zero() {
    let value = normalize_xinput_axis(0);
    assert_eq!(value, AxisValue { raw: 0, divisor: 32768, negated: false });
    assert_eq!(as_float(value), 0.0);
}

#[test]
fn xinput_axis_maps_minimum_to_minus_one() {
    let value = normalize_xinput_axis(-32768);
    assert_eq!(value, AxisValue { raw: -32768, divisor: 32768, negated: false });
    assert_eq!(as_float(value), -1.0);
}

#[test]
fn xinput_axis_maps_maximum_just_below_one() {
    let value = normalize_xinput_axis(32767);
    assert_eq!(value, AxisValue { raw: 32767, divisor: 32768, negated: false });
    let float = as_float(value);
    assert!(float < 1.0);
    assert!((float - 0.99997).abs() < 0.00001);
}

#[test]
fn xinput_axis_is_monotonic_on_samples() {
    let samples: [i16; 9] = [-32768, -32767, -8192, -1, 0, 1, 8192, 32766, 32767];
    for pair in samples.windows(2) {
        let low = normalize_xinput_axis(pair[0]);
        let high = normalize_xinput_axis(pair[1]);
        assert!(as_float(low) < as_float(high));
        assert!(
            (low.raw as i64) * (high.divisor as i64) < (high.raw as i64) * (low.divisor as i64)
        );
    }
}

#[test]
fn xinput_trigger_maps_ends_exactly() {
    assert_eq!(
        normalize_xinput_trigger(0),
        AxisValue { raw: 0, divisor: 255, negated: false }
    );
    assert_eq!(as_float(normalize_xinput_trigger(0)), 0.0);
    assert_eq!(
        normalize_xinput_trigger(255),
        AxisValue { raw: 255, divisor: 255, negated: false }
    );
    assert_eq!(as_float(normalize_xinput_trigger(255)), 1.0);
}

#[test]
fn xinput_trigger_midpoint() {
    let value = normalize_xinput_trigger(51);
    assert_eq!(value, AxisValue { raw: 51, divisor: 255, negated: false });
    assert_eq!(as_float(value), 0.2);
}

#[test]
fn xinput_trigger_stays_in_unit_range() {
    for raw in 0..=255u8 {
        let float = as_float(normalize_xinput_trigger(raw));
        assert!((0.0..=1.0).contains(&float));
    }
}

#[test]
fn sdl_vertical_axes_are_negated() {
    for raw in [-32768i16, -12345, -1, 0, 1, 16384, 32767] {
        let left_x = normalize_sdl_axis(Axis::LeftX, raw);
        let left_y = normalize_sdl_axis(Axis::LeftY, raw);
        let right_x = normalize_sdl_axis(Axis::RightX, raw);
        let right_y = normalize_sdl_axis(Axis::RightY, raw);
        assert_eq!(as_float(left_y), -as_float(left_x));
        assert_eq!(as_float(right_y), -as_float(right_x));
        assert_eq!(left_x, AxisValue { raw, divisor: 32767, negated: false });
        assert_eq!(left_y, AxisValue { raw, divisor: 32767, negated: true });
        assert_eq!(right_x, AxisValue { raw, divisor: 32767, negated: false });
        assert_eq!(right_y, AxisValue { raw, divisor: 32767, negated: true });
    }
}

#[test]
fn sdl_triggers_are_not_negated() {
    assert_eq!(
        normalize_sdl_axis(Axis::TriggerLeft, 32767),
        AxisValue { raw: 32767, divisor: 32767, negated: false }
    );
    assert_eq!(as_float(normalize_sdl_axis(Axis::TriggerLeft, 32767)), 1.0);
    assert_eq!(as_float(normalize_sdl_axis(Axis::TriggerRight, 0)), 0.0);
    assert_eq!(
        normalize_sdl_axis(Axis::TriggerRight, 16383),
        AxisValue { raw: 16383, divisor: 32767, negated: false }
    );
}

#[test]
fn sdl_axis_is_not_clamped() {
    let value = normalize_sdl_axis(Axis::LeftX, -32768);
    assert_eq!(value, AxisValue { raw: -32768, divisor: 32767, negated: false });
    assert!(as_float(value) < -1.0);
    let flipped = normalize_sdl_axis(Axis::LeftY, -32768);
    assert!(as_float(flipped) > 1.0);
}

#[test]
fn sdl_up_is_positive() {
    assert_eq!(as_float(normalize_sdl_axis(Axis::LeftY, -32767)), 1.0);
    assert_eq!(as_float(normalize_sdl_axis(Axis::RightY, 32767)), -1.0);
}

#[test]
fn button_table_is_fixed() {
    assert_eq!(map_sdl_button(Button::A), 0);
    assert_eq!(map_sdl_button(Button::B), 1);
    assert_eq!(map_sdl_button(Button::X), 2);
    assert_eq!(map_sdl_button(Button::Y), 3);
    assert_eq!(map_sdl_button(Button::LeftShoulder), 4);
    assert_eq!(map_sdl_button(Button::RightShoulder), 5);
    assert_eq!(map_sdl_button(Button::Back), 6);
    assert_eq!(map_sdl_button(Button::Start), 7);
    assert_eq!(map_sdl_button(Button::Guide), 8);
    assert_eq!(map_sdl_button(Button::LeftStick), 9);
    assert_eq!(map_sdl_button(Button::RightStick), 10);
    assert_eq!(map_sdl_button(Button::DPadUp), 11);
    assert_eq!(map_sdl_button(Button::DPadDown), 12);
    assert_eq!(map_sdl_button(Button::DPadLeft), 13);
    assert_eq!(map_sdl_button(Button::DPadRight), 14);
}

#[test]
fn unrecognized_buttons_share_slot_zero() {
    for button in [
        Button::Misc1,
        Button::Paddle1,
        Button::Paddle2,
        Button::Paddle3,
        Button::Paddle4,
        Button::Touchpad,
    ] {
        assert_eq!(map_sdl_button(button), 0);
    }
}

#[test]
fn axis_table_is_fixed() {
    assert_eq!(map_sdl_axis(Axis::LeftX), 0);
    assert_eq!(map_sdl_axis(Axis::LeftY), 1);
    assert_eq!(map_sdl_axis(Axis::RightX), 2);
    assert_eq!(map_sdl_axis(Axis::RightY), 3);
    assert_eq!(map_sdl_axis(Axis::TriggerLeft), 4);
    assert_eq!(map_sdl_axis(Axis::TriggerRight), 5);
}

#[test]
fn mapping_is_deterministic() {
    for button in MAPPED_BUTTONS {
        assert_eq!(map_sdl_button(button), map_sdl_button(button));
    }
    for axis in ALL_AXES {
        assert_eq!(map_sdl_axis(axis), map_sdl_axis(axis));
        assert_eq!(normalize_sdl_axis(axis, 1234), normalize_sdl_axis(axis, 1234));
    }
}

#[test]
fn mapped_buttons_have_distinct_slots() {
    let mut seen = [false; 15];
    for button in MAPPED_BUTTONS {
        let slot = map_sdl_button(button);
        assert!(!seen[slot]);
        seen[slot] = true;
    }
    assert!(seen.iter().all(|hit| *hit));
}

#[test]
fn slots_lead_back_to_their_kinds() {
    for slot in 0..6 {
        let axis = axis_for_slot(slot).unwrap();
        assert_eq!(map_sdl_axis(axis), slot);
        assert_eq!(axis, ALL_AXES[slot]);
    }
    assert_eq!(axis_for_slot(6), None);
    for slot in 0..15 {
        let button = button_for_slot(slot).unwrap();
        assert_eq!(map_sdl_button(button), slot);
        assert_eq!(button, MAPPED_BUTTONS[slot]);
    }
    assert_eq!(button_for_slot(15), None);
}

#[test]
fn zero_axis_value() {
    let zero = AxisValue::zero();
    assert_eq!(zero, AxisValue { raw: 0, divisor: 1, negated: false });
    assert!(zero.is_zero());
    assert_eq!(as_float(zero), 0.0);
    assert!(!normalize_xinput_axis(1).is_zero());
    assert!(normalize_sdl_axis(Axis::LeftY, 0).is_zero());
}
