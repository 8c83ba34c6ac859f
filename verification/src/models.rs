//! The snapshot model shared by both backends.

use vstd::prelude::*;

verus! {

/// Number of button slots in a canonical snapshot.
pub const BUTTON_COUNT: usize = 15;

/// Number of axis slots in a canonical snapshot.
pub const AXIS_COUNT: usize = 6;

/// A normalized axis position, kept exactly as the fraction it was computed
/// from: `raw / divisor`, with the sign flipped when `negated` is set.
///
/// Consumers that want a floating-point number divide `raw` by `divisor` and
/// negate the quotient when `negated` is set.
#[derive(Clone, Copy, Debug, PartialEq, Eq, Structural)]
pub struct AxisValue {
    pub raw: i16,
    pub divisor: u16,
    pub negated: bool,
}

impl AxisValue {
    /// Numerator of the fraction this value stands for.
    pub open spec fn numerator(self) -> int {
        if self.negated {
            -(self.raw as int)
        } else {
            self.raw as int
        }
    }

    /// Denominator of the fraction this value stands for.
    pub open spec fn denominator(self) -> int {
        self.divisor as int
    }

    /// A value is well formed when its denominator is positive.
    pub open spec fn well_formed(self) -> bool {
        self.divisor > 0
    }

    /// `self <= other` as fractions (both well formed).
    pub open spec fn le(self, other: AxisValue) -> bool {
        self.numerator() * other.denominator() <= other.numerator() * self.denominator()
    }

    /// `self == other` as fractions (both well formed).
    pub open spec fn same_fraction(self, other: AxisValue) -> bool {
        self.numerator() * other.denominator() == other.numerator() * self.denominator()
    }

    /// `self == -other` as fractions (both well formed).
    pub open spec fn opposite_of(self, other: AxisValue) -> bool {
        self.numerator() * other.denominator() == -other.numerator() * self.denominator()
    }

    /// The resting position, `0 / 1`.
    pub open spec fn spec_zero() -> AxisValue {
        AxisValue { raw: 0, divisor: 1, negated: false }
    }

    /// The resting position of an axis.
    pub fn zero() -> (value: AxisValue)
        ensures
            value == Self::spec_zero(),
            value.numerator() == 0,
            value.well_formed(),
    {
        AxisValue { raw: 0, divisor: 1, negated: false }
    }

    /// Whether the value is exactly zero.
    pub fn is_zero(&self) -> (zero: bool)
        ensures
            zero == (self.numerator() == 0),
    {
        self.raw == 0
    }
}

/// One entry of the controller list.
#[derive(Debug, Clone, PartialEq, Eq)]
pub struct GamepadInfo {
    pub id: usize,
    pub name: String,
    pub controller_type: String,
    pub vendor_id: Option<u16>,
    pub product_id: Option<u16>,
}

/// Mathematical content of a [`GamepadInfo`].
pub struct GamepadInfoView {
    pub id: usize,
    pub name: Seq<char>,
    pub controller_type: Seq<char>,
    pub vendor_id: Option<u16>,
    pub product_id: Option<u16>,
}

impl View for GamepadInfo {
    type V = GamepadInfoView;

    open spec fn view(&self) -> GamepadInfoView {
        GamepadInfoView {
            id: self.id,
            name: self.name@,
            controller_type: self.controller_type@,
            vendor_id: self.vendor_id,
            product_id: self.product_id,
        }
    }
}

/// Canonical button and axis snapshot of one controller.
#[derive(Debug, Clone, PartialEq, Eq)]
pub struct GamepadState {
    pub buttons: Vec<bool>,
    pub axes: Vec<AxisValue>,
}

/// Mathematical content of a [`GamepadState`].
pub struct GamepadStateView {
    pub buttons: Seq<bool>,
    pub axes: Seq<AxisValue>,
}

impl GamepadStateView {
    /// Fifteen buttons, six axes, every axis a proper fraction.
    pub open spec fn well_formed(self) -> bool {
        &&& self.buttons.len() == BUTTON_COUNT
        &&& self.axes.len() == AXIS_COUNT
        &&& forall|i: int| 0 <= i < self.axes.len() ==> (#[trigger] self.axes[i]).well_formed()
    }
}

impl View for GamepadState {
    type V = GamepadStateView;

    open spec fn view(&self) -> GamepadStateView {
        GamepadStateView { buttons: self.buttons@, axes: self.axes@ }
    }
}

/// Live state of one device of the event-driven backend.
#[derive(Debug, Clone, PartialEq, Eq)]
pub struct ControllerData {
    pub name: String,
    pub buttons: Vec<bool>,
    pub axes: Vec<AxisValue>,
}

/// Mathematical content of a [`ControllerData`].
pub struct ControllerDataView {
    pub name: Seq<char>,
    pub buttons: Seq<bool>,
    pub axes: Seq<AxisValue>,
}

impl ControllerDataView {
    /// Fifteen buttons, six axes, every axis a proper fraction.
    pub open spec fn well_formed(self) -> bool {
        &&& self.buttons.len() == BUTTON_COUNT
        &&& self.axes.len() == AXIS_COUNT
        &&& forall|i: int| 0 <= i < self.axes.len() ==> (#[trigger] self.axes[i]).well_formed()
    }

    /// The state a device has right after it was opened: nothing pressed,
    /// every axis at rest.
    pub open spec fn fresh(name: Seq<char>) -> ControllerDataView {
        ControllerDataView {
            name,
            buttons: Seq::new(BUTTON_COUNT as nat, |i: int| false),
            axes: Seq::new(AXIS_COUNT as nat, |i: int| AxisValue::spec_zero()),
        }
    }

    /// The snapshot that a state query returns for this device.
    pub open spec fn snapshot(self) -> GamepadStateView {
        GamepadStateView { buttons: self.buttons, axes: self.axes }
    }
}

impl View for ControllerData {
    type V = ControllerDataView;

    open spec fn view(&self) -> ControllerDataView {
        ControllerDataView { name: self.name@, buttons: self.buttons@, axes: self.axes@ }
    }
}

/// Last raw values seen on one slot of the fixed-slot backend.
#[derive(Clone, Copy, Debug, PartialEq, Eq, Structural)]
pub struct XInputState {
    pub connected: bool,
    pub buttons: u16,
    pub left_x: i16,
    pub left_y: i16,
    pub right_x: i16,
    pub right_y: i16,
    pub left_trigger: u8,
    pub right_trigger: u8,
}

impl XInputState {
    /// The state of a slot that was never seen connected.
    pub open spec fn spec_default() -> XInputState {
        XInputState {
            connected: false,
            buttons: 0,
            left_x: 0,
            left_y: 0,
            right_x: 0,
            right_y: 0,
            left_trigger: 0,
            right_trigger: 0,
        }
    }
}

impl Default for XInputState {
    fn default() -> (state: Self)
        ensures
            state == XInputState::spec_default(),
    {
        Self {
            connected: false,
            buttons: 0,
            left_x: 0,
            left_y: 0,
            right_x: 0,
            right_y: 0,
            left_trigger: 0,
            right_trigger: 0,
        }
    }
}

} // verus!
