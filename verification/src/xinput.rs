//! The fixed-slot, poll-only backend: four slots addressed by index, each
//! read on demand as one raw reading.

use vstd::prelude::*;
use crate::models::{AxisValue, GamepadState, GamepadStateView, XInputState, BUTTON_COUNT};
use crate::utils::{
    normalize_xinput_axis, normalize_xinput_trigger, xinput_axis_value, xinput_trigger_value,
};

verus! {

/// Number of slots of the fixed-slot backend.
pub const XINPUT_SLOTS: usize = 4;

/// Canonical button slot that the fixed-slot backend never reports.
pub const GUIDE_SLOT: usize = 8;

/// A stick counts as moved when either of its axes changed by more than this
/// many raw units.
pub const STICK_THRESHOLD: i32 = 8192;

/// A trigger counts as moved when it changed by more than this many raw
/// units.
pub const TRIGGER_THRESHOLD: i16 = 20;

/// One raw reading of a slot.
#[derive(Clone, Copy, Debug, PartialEq, Eq, Structural)]
pub struct XInputReading {
    pub buttons: u16,
    pub left_x: i16,
    pub left_y: i16,
    pub right_x: i16,
    pub right_y: i16,
    pub left_trigger: u8,
    pub right_trigger: u8,
}

/// A change worth reporting to an observer. Diagnostics never influence the
/// values a query returns.
#[derive(Clone, Copy, Debug, PartialEq, Eq, Structural)]
pub enum Diagnostic {
    /// The slot answered after not answering before.
    Connected { slot: usize },
    /// The slot stopped answering.
    Disconnected { slot: usize },
    /// The button in canonical slot `button` went down.
    ButtonPressed { slot: usize, button: usize },
    /// The button in canonical slot `button` went up.
    ButtonReleased { slot: usize, button: usize },
    /// The left stick moved by more than the stick threshold.
    LeftStick { slot: usize, x: AxisValue, y: AxisValue },
    /// The right stick moved by more than the stick threshold.
    RightStick { slot: usize, x: AxisValue, y: AxisValue },
    /// The left trigger moved by more than the trigger threshold.
    LeftTrigger { slot: usize, value: AxisValue },
    /// The right trigger moved by more than the trigger threshold.
    RightTrigger { slot: usize, value: AxisValue },
}

/// Bit of the raw button mask that feeds a canonical button slot; 0 for the
/// guide slot and for anything outside the fifteen slots.
pub open spec fn button_mask(slot: int) -> u16 {
    if slot == 0 {
        0x1000
    } else if slot == 1 {
        0x2000
    } else if slot == 2 {
        0x4000
    } else if slot == 3 {
        0x8000
    } else if slot == 4 {
        0x0100
    } else if slot == 5 {
        0x0200
    } else if slot == 6 {
        0x0020
    } else if slot == 7 {
        0x0010
    } else if slot == 9 {
        0x0040
    } else if slot == 10 {
        0x0080
    } else if slot == 11 {
        0x0001
    } else if slot == 12 {
        0x0002
    } else if slot == 13 {
        0x0004
    } else if slot == 14 {
        0x0008
    } else {
        0
    }
}

/// Whether a raw button mask shows the button of a canonical slot as held.
pub open spec fn slot_pressed(buttons: u16, slot: int) -> bool {
    button_mask(slot) != 0 && buttons & button_mask(slot) != 0
}

/// The canonical snapshot that a raw reading stands for.
pub open spec fn reading_snapshot(reading: XInputReading) -> GamepadStateView {
    GamepadStateView {
        buttons: Seq::new(BUTTON_COUNT as nat, |i: int| slot_pressed(reading.buttons, i)),
        axes: seq![
            xinput_axis_value(reading.left_x),
            xinput_axis_value(reading.left_y),
            xinput_axis_value(reading.right_x),
            xinput_axis_value(reading.right_y),
            xinput_trigger_value(reading.left_trigger),
            xinput_trigger_value(reading.right_trigger),
        ],
    }
}

/// Bit of the raw button mask that feeds a canonical button slot.
pub fn xinput_button_mask(slot: usize) -> (mask: u16)
    ensures
        mask == button_mask(slot as int),
{
    match slot {
        0 => 0x1000,
        1 => 0x2000,
        2 => 0x4000,
        3 => 0x8000,
        4 => 0x0100,
        5 => 0x0200,
        6 => 0x0020,
        7 => 0x0010,
        9 => 0x0040,
        10 => 0x0080,
        11 => 0x0001,
        12 => 0x0002,
        13 => 0x0004,
        14 => 0x0008,
        _ => 0,
    }
}

/// Whether a raw button mask shows the button of a canonical slot as held.
pub fn xinput_button_pressed(buttons: u16, slot: usize) -> (pressed: bool)
    ensures
        pressed == slot_pressed(buttons, slot as int),
        slot == GUIDE_SLOT ==> !pressed,
        slot >= BUTTON_COUNT ==> !pressed,
{
    let mask: u16 = xinput_button_mask(slot);
    mask != 0 && buttons & mask != 0
}

/// Spreads a raw button mask over the fifteen canonical button slots.
pub fn xinput_buttons(buttons: u16) -> (slots: Vec<bool>)
    ensures
        slots@ == Seq::new(BUTTON_COUNT as nat, |i: int| slot_pressed(buttons, i)),
        slots@.len() == 15,
        slots@[8] == false,
{
    let mut slots: Vec<bool> = Vec::new();
    let mut slot: usize = 0;
    while slot < BUTTON_COUNT
        invariant
            slot <= BUTTON_COUNT,
            slots@.len() == slot,
            forall|i: int| 0 <= i < slot ==> slots@[i] == slot_pressed(buttons, i),
        decreases BUTTON_COUNT - slot,
    {
        slots.push(xinput_button_pressed(buttons, slot));
        slot += 1;
    }
    assert(slots@ =~= Seq::new(BUTTON_COUNT as nat, |i: int| slot_pressed(buttons, i)));
    slots
}

/// Canonical snapshot of a raw reading: the buttons spread over their slots
/// with the guide slot left unset, and the six axes normalized in the order
/// left x, left y, right x, right y, left trigger, right trigger.
pub fn xinput_gamepad_state(reading: &XInputReading) -> (state: GamepadState)
    ensures
        state@ == reading_snapshot(*reading),
        state@.well_formed(),
        state@.buttons[8] == false,
{
    let buttons = xinput_buttons(reading.buttons);
    let mut axes: Vec<AxisValue> = Vec::new();
    axes.push(normalize_xinput_axis(reading.left_x));
    axes.push(normalize_xinput_axis(reading.left_y));
    axes.push(normalize_xinput_axis(reading.right_x));
    axes.push(normalize_xinput_axis(reading.right_y));
    axes.push(normalize_xinput_trigger(reading.left_trigger));
    axes.push(normalize_xinput_trigger(reading.right_trigger));
    assert(axes@ =~= reading_snapshot(*reading).axes);
    GamepadState { buttons, axes }
}

/// Short name of the button that feeds a canonical button slot, as used in
/// reports; the guide slot and anything outside the fifteen slots have none.
pub open spec fn button_label(button: int) -> Option<Seq<char>> {
    if button == 0 {
        Some("A"@)
    } else if button == 1 {
        Some("B"@)
    } else if button == 2 {
        Some("X"@)
    } else if button == 3 {
        Some("Y"@)
    } else if button == 4 {
        Some("LB"@)
    } else if button == 5 {
        Some("RB"@)
    } else if button == 6 {
        Some("Back"@)
    } else if button == 7 {
        Some("Start"@)
    } else if button == 9 {
        Some("L3"@)
    } else if button == 10 {
        Some("R3"@)
    } else if button == 11 {
        Some("DPad Up"@)
    } else if button == 12 {
        Some("DPad Down"@)
    } else if button == 13 {
        Some("DPad Left"@)
    } else if button == 14 {
        Some("DPad Right"@)
    } else {
        None
    }
}

/// Short name of the button that feeds a canonical button slot. A slot has a
/// name exactly when it has a bit in the raw button mask.
pub fn xinput_button_label(button: usize) -> (label: Option<&'static str>)
    ensures
        label is Some <==> button_mask(button as int) != 0,
        match label {
            Some(label) => button_label(button as int) == Some(label@),
            None => button_label(button as int) is None,
        },
{
    match button {
        0 => Some("A"),
        1 => Some("B"),
        2 => Some("X"),
        3 => Some("Y"),
        4 => Some("LB"),
        5 => Some("RB"),
        6 => Some("Back"),
        7 => Some("Start"),
        9 => Some("L3"),
        10 => Some("R3"),
        11 => Some("DPad Up"),
        12 => Some("DPad Down"),
        13 => Some("DPad Left"),
        14 => Some("DPad Right"),
        _ => None,
    }
}

/// Whether a raw value moved by more than `threshold` units, in either
/// direction.
pub open spec fn moved_beyond(before: int, after: int, threshold: int) -> bool {
    after - before > threshold || before - after > threshold
}

/// Whether a stick moved far enough to be reported: either of its axes moved
/// by more than the stick threshold.
pub open spec fn stick_moved(before_x: i16, before_y: i16, after_x: i16, after_y: i16) -> bool {
    moved_beyond(before_x as int, after_x as int, STICK_THRESHOLD as int) || moved_beyond(
        before_y as int,
        after_y as int,
        STICK_THRESHOLD as int,
    )
}

/// Whether a trigger moved far enough to be reported.
pub open spec fn trigger_moved(before: u8, after: u8) -> bool {
    moved_beyond(before as int, after as int, TRIGGER_THRESHOLD as int)
}

/// What is reported for one canonical button slot: nothing while the button
/// keeps its state, otherwise the edge it made.
pub open spec fn button_edge(slot: usize, before: u16, after: u16, button: int) -> Seq<
    Diagnostic,
> {
    if slot_pressed(before, button) == slot_pressed(after, button) {
        Seq::empty()
    } else if slot_pressed(after, button) {
        seq![Diagnostic::ButtonPressed { slot, button: button as usize }]
    } else {
        seq![Diagnostic::ButtonReleased { slot, button: button as usize }]
    }
}

/// The button edges of the canonical slots below `upto`, in slot order.
pub open spec fn button_edges(slot: usize, before: u16, after: u16, upto: int) -> Seq<Diagnostic>
    decreases upto,
{
    if upto <= 0 {
        Seq::empty()
    } else {
        button_edges(slot, before, after, upto - 1) + button_edge(slot, before, after, upto - 1)
    }
}

/// What is reported for the sticks and triggers: the left stick, the right
/// stick, the left trigger, the right trigger, each only when it moved far
/// enough, each with its new normalized position.
pub open spec fn motion_diagnostics(
    slot: usize,
    previous: XInputState,
    reading: XInputReading,
) -> Seq<Diagnostic> {
    let left_stick = if stick_moved(
        previous.left_x,
        previous.left_y,
        reading.left_x,
        reading.left_y,
    ) {
        seq![
            Diagnostic::LeftStick {
                slot,
                x: xinput_axis_value(reading.left_x),
                y: xinput_axis_value(reading.left_y),
            },
        ]
    } else {
        Seq::empty()
    };
    let right_stick = if stick_moved(
        previous.right_x,
        previous.right_y,
        reading.right_x,
        reading.right_y,
    ) {
        seq![
            Diagnostic::RightStick {
                slot,
                x: xinput_axis_value(reading.right_x),
                y: xinput_axis_value(reading.right_y),
            },
        ]
    } else {
        Seq::empty()
    };
    let left_trigger = if trigger_moved(previous.left_trigger, reading.left_trigger) {
        seq![
            Diagnostic::LeftTrigger { slot, value: xinput_trigger_value(reading.left_trigger) },
        ]
    } else {
        Seq::empty()
    };
    let right_trigger = if trigger_moved(previous.right_trigger, reading.right_trigger) {
        seq![
            Diagnostic::RightTrigger { slot, value: xinput_trigger_value(reading.right_trigger) },
        ]
    } else {
        Seq::empty()
    };
    left_stick + right_stick + left_trigger + right_trigger
}

/// Everything that is reported when `reading` follows `previous` on a slot:
/// the button edges in canonical slot order, then the stick and trigger
/// movements.
pub open spec fn reading_diagnostics(
    slot: usize,
    previous: XInputState,
    reading: XInputReading,
) -> Seq<Diagnostic> {
    button_edges(slot, previous.buttons, reading.buttons, BUTTON_COUNT as int)
        + motion_diagnostics(slot, previous, reading)
}

/// What a slot remembers after a reading: the raw values of the reading, and
/// the connection flag it had.
pub open spec fn recorded(previous: XInputState, reading: XInputReading) -> XInputState {
    XInputState {
        connected: previous.connected,
        buttons: reading.buttons,
        left_x: reading.left_x,
        left_y: reading.left_y,
        right_x: reading.right_x,
        right_y: reading.right_y,
        left_trigger: reading.left_trigger,
        right_trigger: reading.right_trigger,
    }
}

/// Whether a stick moved far enough to be reported.
pub fn xinput_stick_moved(before_x: i16, before_y: i16, after_x: i16, after_y: i16) -> (moved:
    bool)
    ensures
        moved == stick_moved(before_x, before_y, after_x, after_y),
{
    let x_diff: i32 = after_x as i32 - before_x as i32;
    let y_diff: i32 = after_y as i32 - before_y as i32;
    x_diff > STICK_THRESHOLD || -x_diff > STICK_THRESHOLD || y_diff > STICK_THRESHOLD || -y_diff
        > STICK_THRESHOLD
}

/// Whether a trigger moved far enough to be reported.
pub fn xinput_trigger_moved(before: u8, after: u8) -> (moved: bool)
    ensures
        moved == trigger_moved(before, after),
{
    let diff: i16 = after as i16 - before as i16;
    diff > TRIGGER_THRESHOLD || -diff > TRIGGER_THRESHOLD
}

/// Compares a reading with what the slot remembered and lists what changed
/// enough to be reported.
pub fn xinput_diagnostics(slot: usize, previous: &XInputState, reading: &XInputReading) -> (events:
    Vec<Diagnostic>)
    ensures
        events@ == reading_diagnostics(slot, *previous, *reading),
{
    let mut events: Vec<Diagnostic> = Vec::new();
    let mut button: usize = 0;
    while button < BUTTON_COUNT
        invariant
            button <= BUTTON_COUNT,
            events@ == button_edges(slot, previous.buttons, reading.buttons, button as int),
        decreases BUTTON_COUNT - button,
    {
        let was_pressed = xinput_button_pressed(previous.buttons, button);
        let is_pressed = xinput_button_pressed(reading.buttons, button);
        if was_pressed != is_pressed {
            if is_pressed {
                events.push(Diagnostic::ButtonPressed { slot, button });
            } else {
                events.push(Diagnostic::ButtonReleased { slot, button });
            }
        }
        button += 1;
        assert(events@ =~= button_edges(slot, previous.buttons, reading.buttons, button as int));
    }
    let ghost edges = events@;
    if xinput_stick_moved(previous.left_x, previous.left_y, reading.left_x, reading.left_y) {
        events.push(
            Diagnostic::LeftStick {
                slot,
                x: normalize_xinput_axis(reading.left_x),
                y: normalize_xinput_axis(reading.left_y),
            },
        );
    }
    if xinput_stick_moved(previous.right_x, previous.right_y, reading.right_x, reading.right_y) {
        events.push(
            Diagnostic::RightStick {
                slot,
                x: normalize_xinput_axis(reading.right_x),
                y: normalize_xinput_axis(reading.right_y),
            },
        );
    }
    if xinput_trigger_moved(previous.left_trigger, reading.left_trigger) {
        events.push(
            Diagnostic::LeftTrigger { slot, value: normalize_xinput_trigger(reading.left_trigger) },
        );
    }
    if xinput_trigger_moved(previous.right_trigger, reading.right_trigger) {
        events.push(
            Diagnostic::RightTrigger {
                slot,
                value: normalize_xinput_trigger(reading.right_trigger),
            },
        );
    }
    assert(events@ =~= edges + motion_diagnostics(slot, *previous, *reading));
    events
}

/// What a slot remembers after a reading.
pub fn record_reading(previous: &XInputState, reading: &XInputReading) -> (state: XInputState)
    ensures
        state == recorded(*previous, *reading),
{
    XInputState {
        connected: previous.connected,
        buttons: reading.buttons,
        left_x: reading.left_x,
        left_y: reading.left_y,
        right_x: reading.right_x,
        right_y: reading.right_y,
        left_trigger: reading.left_trigger,
        right_trigger: reading.right_trigger,
    }
}

/// A reading that repeats what the slot remembered reports nothing.
pub proof fn lemma_steady_reading_is_silent(slot: usize, previous: XInputState, reading: XInputReading)
    requires
        recorded(previous, reading) == previous,
    ensures
        reading_diagnostics(slot, previous, reading) == Seq::<Diagnostic>::empty(),
{
    lemma_no_edges_without_change(slot, reading.buttons, BUTTON_COUNT as int);
    assert(motion_diagnostics(slot, previous, reading) =~= Seq::<Diagnostic>::empty());
    assert(reading_diagnostics(slot, previous, reading) =~= Seq::<Diagnostic>::empty());
}

/// An unchanged button mask makes no edges.
pub proof fn lemma_no_edges_without_change(slot: usize, buttons: u16, upto: int)
    ensures
        button_edges(slot, buttons, buttons, upto) == Seq::<Diagnostic>::empty(),
    decreases upto,
{
    if upto > 0 {
        lemma_no_edges_without_change(slot, buttons, upto - 1);
        assert(button_edges(slot, buttons, buttons, upto) =~= Seq::<Diagnostic>::empty());
    }
}

/// The guide slot of a snapshot of the fixed-slot backend is never set, and
/// the snapshot always has fifteen buttons and six axes.
pub proof fn lemma_guide_slot_unset(reading: XInputReading)
    ensures
        reading_snapshot(reading).well_formed(),
        reading_snapshot(reading).buttons[GUIDE_SLOT as int] == false,
{
}

} // verus!
