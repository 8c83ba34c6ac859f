//! Mapping of the event-driven backend's button and axis kinds to canonical
//! slots, and normalization of raw axis values.

use vstd::prelude::*;
use crate::models::AxisValue;

verus! {

/// Button kinds of the event-driven backend.
#[derive(Clone, Copy, Debug, PartialEq, Eq, Structural)]
pub enum Button {
    A,
    B,
    X,
    Y,
    Back,
    Guide,
    Start,
    LeftStick,
    RightStick,
    LeftShoulder,
    RightShoulder,
    DPadUp,
    DPadDown,
    DPadLeft,
    DPadRight,
    Misc1,
    Paddle1,
    Paddle2,
    Paddle3,
    Paddle4,
    Touchpad,
}

/// Axis kinds of the event-driven backend.
#[derive(Clone, Copy, Debug, PartialEq, Eq, Structural)]
pub enum Axis {
    LeftX,
    LeftY,
    RightX,
    RightY,
    TriggerLeft,
    TriggerRight,
}

/// Divisor of every axis of the event-driven backend.
pub const SDL_AXIS_DIVISOR: u16 = 32767;

/// Divisor of the stick axes of the fixed-slot backend.
pub const XINPUT_AXIS_DIVISOR: u16 = 32768;

/// Divisor of the triggers of the fixed-slot backend.
pub const XINPUT_TRIGGER_DIVISOR: u16 = 255;

impl Button {
    /// Whether the kind has a canonical slot of its own.
    pub open spec fn is_mapped(self) -> bool {
        !(self is Misc1 || self is Paddle1 || self is Paddle2 || self is Paddle3
            || self is Paddle4 || self is Touchpad)
    }

    /// Canonical slot of a button kind; kinds without a slot of their own
    /// share slot 0.
    pub open spec fn slot(self) -> int {
        match self {
            Button::A => 0,
            Button::B => 1,
            Button::X => 2,
            Button::Y => 3,
            Button::LeftShoulder => 4,
            Button::RightShoulder => 5,
            Button::Back => 6,
            Button::Start => 7,
            Button::Guide => 8,
            Button::LeftStick => 9,
            Button::RightStick => 10,
            Button::DPadUp => 11,
            Button::DPadDown => 12,
            Button::DPadLeft => 13,
            Button::DPadRight => 14,
            _ => 0,
        }
    }
}

impl Axis {
    /// Canonical slot of an axis kind.
    pub open spec fn slot(self) -> int {
        match self {
            Axis::LeftX => 0,
            Axis::LeftY => 1,
            Axis::RightX => 2,
            Axis::RightY => 3,
            Axis::TriggerLeft => 4,
            Axis::TriggerRight => 5,
        }
    }

    /// The vertical stick axes, whose sign is flipped so that up is positive.
    pub open spec fn is_vertical(self) -> bool {
        self is LeftY || self is RightY
    }

    /// Normalized value of a raw reading of this axis.
    pub open spec fn normalized(self, value: i16) -> AxisValue {
        AxisValue { raw: value, divisor: SDL_AXIS_DIVISOR, negated: self.is_vertical() }
    }
}

/// Normalized value of a raw stick reading of the fixed-slot backend.
pub open spec fn xinput_axis_value(value: i16) -> AxisValue {
    AxisValue { raw: value, divisor: XINPUT_AXIS_DIVISOR, negated: false }
}

/// Normalized value of a raw trigger reading of the fixed-slot backend.
pub open spec fn xinput_trigger_value(value: u8) -> AxisValue {
    AxisValue { raw: value as i16, divisor: XINPUT_TRIGGER_DIVISOR, negated: false }
}

/// The axis kind that feeds a canonical axis slot.
pub open spec fn axis_of_slot(index: int) -> Axis {
    if index == 0 {
        Axis::LeftX
    } else if index == 1 {
        Axis::LeftY
    } else if index == 2 {
        Axis::RightX
    } else if index == 3 {
        Axis::RightY
    } else if index == 4 {
        Axis::TriggerLeft
    } else {
        Axis::TriggerRight
    }
}

/// The button kind that feeds a canonical button slot.
pub open spec fn button_of_slot(index: int) -> Button {
    if index == 0 {
        Button::A
    } else if index == 1 {
        Button::B
    } else if index == 2 {
        Button::X
    } else if index == 3 {
        Button::Y
    } else if index == 4 {
        Button::LeftShoulder
    } else if index == 5 {
        Button::RightShoulder
    } else if index == 6 {
        Button::Back
    } else if index == 7 {
        Button::Start
    } else if index == 8 {
        Button::Guide
    } else if index == 9 {
        Button::LeftStick
    } else if index == 10 {
        Button::RightStick
    } else if index == 11 {
        Button::DPadUp
    } else if index == 12 {
        Button::DPadDown
    } else if index == 13 {
        Button::DPadLeft
    } else {
        Button::DPadRight
    }
}

/// The axis kind to read for a canonical axis slot; `None` outside the six
/// slots.
pub fn axis_for_slot(index: usize) -> (axis: Option<Axis>)
    ensures
        axis is Some <==> index < 6,
        axis is Some ==> axis.unwrap() == axis_of_slot(index as int) && axis.unwrap().slot()
            == index,
{
    match index {
        0 => Some(Axis::LeftX),
        1 => Some(Axis::LeftY),
        2 => Some(Axis::RightX),
        3 => Some(Axis::RightY),
        4 => Some(Axis::TriggerLeft),
        5 => Some(Axis::TriggerRight),
        _ => None,
    }
}

/// The button kind to read for a canonical button slot; `None` outside the
/// fifteen slots.
pub fn button_for_slot(index: usize) -> (button: Option<Button>)
    ensures
        button is Some <==> index < 15,
        button is Some ==> button.unwrap() == button_of_slot(index as int)
            && button.unwrap().slot() == index && button.unwrap().is_mapped(),
{
    match index {
        0 => Some(Button::A),
        1 => Some(Button::B),
        2 => Some(Button::X),
        3 => Some(Button::Y),
        4 => Some(Button::LeftShoulder),
        5 => Some(Button::RightShoulder),
        6 => Some(Button::Back),
        7 => Some(Button::Start),
        8 => Some(Button::Guide),
        9 => Some(Button::LeftStick),
        10 => Some(Button::RightStick),
        11 => Some(Button::DPadUp),
        12 => Some(Button::DPadDown),
        13 => Some(Button::DPadLeft),
        14 => Some(Button::DPadRight),
        _ => None,
    }
}

/// Canonical button slot of a button kind.
pub fn map_sdl_button(button: Button) -> (index: usize)
    ensures
        index == button.slot(),
        index < 15,
        !button.is_mapped() ==> index == 0,
{
    match button {
        Button::A => 0,
        Button::B => 1,
        Button::X => 2,
        Button::Y => 3,
        Button::LeftShoulder => 4,
        Button::RightShoulder => 5,
        Button::Back => 6,
        Button::Start => 7,
        Button::Guide => 8,
        Button::LeftStick => 9,
        Button::RightStick => 10,
        Button::DPadUp => 11,
        Button::DPadDown => 12,
        Button::DPadLeft => 13,
        Button::DPadRight => 14,
        _ => 0,
    }
}

/// Canonical axis slot of an axis kind.
pub fn map_sdl_axis(axis: Axis) -> (index: usize)
    ensures
        index == axis.slot(),
        index < 6,
{
    match axis {
        Axis::LeftX => 0,
        Axis::LeftY => 1,
        Axis::RightX => 2,
        Axis::RightY => 3,
        Axis::TriggerLeft => 4,
        Axis::TriggerRight => 5,
    }
}

/// Normalizes a raw axis reading of the event-driven backend: `value / 32767`,
/// negated on the vertical stick axes.
pub fn normalize_sdl_axis(axis: Axis, value: i16) -> (result: AxisValue)
    ensures
        result == axis.normalized(value),
        result.denominator() == 32767,
        result.numerator() == (if axis.is_vertical() { -(value as int) } else { value as int }),
{
    match axis {
        Axis::TriggerLeft | Axis::TriggerRight => AxisValue {
            raw: value,
            divisor: SDL_AXIS_DIVISOR,
            negated: false,
        },
        Axis::LeftY | Axis::RightY => AxisValue {
            raw: value,
            divisor: SDL_AXIS_DIVISOR,
            negated: true,
        },
        _ => AxisValue { raw: value, divisor: SDL_AXIS_DIVISOR, negated: false },
    }
}

/// Normalizes a raw stick reading of the fixed-slot backend: `value / 32768`.
pub fn normalize_xinput_axis(value: i16) -> (result: AxisValue)
    ensures
        result == xinput_axis_value(value),
        result.numerator() == value,
        result.denominator() == 32768,
{
    AxisValue { raw: value, divisor: XINPUT_AXIS_DIVISOR, negated: false }
}

/// Normalizes a raw trigger reading of the fixed-slot backend: `value / 255`.
pub fn normalize_xinput_trigger(value: u8) -> (result: AxisValue)
    ensures
        result == xinput_trigger_value(value),
        result.numerator() == value,
        result.denominator() == 255,
{
    AxisValue { raw: value as i16, divisor: XINPUT_TRIGGER_DIVISOR, negated: false }
}

/// Stick normalization of the fixed-slot backend keeps the order of the raw
/// readings: a larger raw value never gives a smaller fraction.
pub proof fn lemma_xinput_axis_monotonic(a: i16, b: i16)
    requires
        a <= b,
    ensures
        xinput_axis_value(a).le(xinput_axis_value(b)),
        a < b ==> !xinput_axis_value(b).le(xinput_axis_value(a)),
{
}

/// Every stick reading of the fixed-slot backend normalizes into `[-1, 1)`.
pub proof fn lemma_xinput_axis_range(value: i16)
    ensures
        xinput_axis_value(value).well_formed(),
        -xinput_axis_value(value).denominator() <= xinput_axis_value(value).numerator(),
        xinput_axis_value(value).numerator() < xinput_axis_value(value).denominator(),
        xinput_axis_value(value).numerator() == 0 <==> value == 0,
        xinput_axis_value(value).numerator() == -xinput_axis_value(value).denominator() <==> value
            == -32768,
{
}

/// Trigger normalization of the fixed-slot backend keeps the order of the raw
/// readings and stays within `[0, 1]`, reaching the ends exactly at 0 and 255.
pub proof fn lemma_xinput_trigger_range(a: u8, b: u8)
    requires
        a <= b,
    ensures
        xinput_trigger_value(a).well_formed(),
        xinput_trigger_value(a).le(xinput_trigger_value(b)),
        0 <= xinput_trigger_value(a).numerator() <= xinput_trigger_value(a).denominator(),
        xinput_trigger_value(a).numerator() == 0 <==> a == 0,
        xinput_trigger_value(a).numerator() == xinput_trigger_value(a).denominator() <==> a == 255,
{
    assert(a * 255 <= b * 255);
}

/// Only the vertical stick axes are negated: for one raw value, a vertical
/// axis gives exactly the opposite of what its horizontal partner gives, and
/// every other axis gives the raw value over 32767 unchanged.
pub proof fn lemma_vertical_axes_negated(axis: Axis, value: i16)
    ensures
        Axis::LeftY.normalized(value).opposite_of(Axis::LeftX.normalized(value)),
        Axis::RightY.normalized(value).opposite_of(Axis::RightX.normalized(value)),
        Axis::LeftY.normalized(value).numerator() == -Axis::LeftX.normalized(value).numerator(),
        Axis::RightY.normalized(value).numerator() == -Axis::RightX.normalized(value).numerator(),
        axis.normalized(value).denominator() == 32767,
        axis.is_vertical() ==> axis.normalized(value).numerator() == -(value as int),
        !axis.is_vertical() ==> axis.normalized(value).numerator() == value as int,
{
}

/// Button kinds with a slot of their own never share it; every kind lands
/// inside the fifteen canonical slots.
pub proof fn lemma_button_slots_distinct(a: Button, b: Button)
    ensures
        0 <= a.slot() < 15,
        a.is_mapped() && b.is_mapped() && a != b ==> a.slot() != b.slot(),
        !a.is_mapped() ==> a.slot() == Button::A.slot(),
{
}

/// Axis kinds never share a slot; every kind lands inside the six canonical
/// slots.
pub proof fn lemma_axis_slots_distinct(a: Axis, b: Axis)
    ensures
        0 <= a.slot() < 6,
        a != b ==> a.slot() != b.slot(),
{
}

} // verus!
