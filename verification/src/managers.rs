//! The aggregation manager: the table of live devices of the event-driven
//! backend, the remembered state of the four slots of the fixed-slot
//! backend, and the poll cycle that keeps the table current.
//!
//! The manager never touches hardware. One turn of the poll cycle takes the
//! event that the caller read from the backend's queue (or the news that the
//! queue is empty), updates the table, and answers with what the caller has
//! to do next.

use vstd::prelude::*;
use std::collections::HashMap;
use vstd::std_specs::hash::*;
use vstd::std_specs::iter::IteratorSpec;
use crate::models::{
    AxisValue, ControllerData, ControllerDataView, GamepadState, XInputState, AXIS_COUNT,
    BUTTON_COUNT,
};
use crate::xinput::{
    reading_diagnostics, reading_snapshot, record_reading, recorded, xinput_diagnostics,
    xinput_gamepad_state, Diagnostic, XInputReading, XINPUT_SLOTS,
};
use crate::utils::{
    axis_for_slot, axis_of_slot, map_sdl_axis, map_sdl_button, normalize_sdl_axis, Axis, Button,
};

verus! {

/// Time budget of one poll cycle, in microseconds.
pub const POLL_BUDGET_MICROS: u128 = 50;

/// An event of the event-driven backend, as far as the manager reads it.
#[derive(Clone, Copy, Debug, PartialEq, Eq, Structural)]
pub enum ControllerEvent {
    /// A joystick was attached; `which` is its device index.
    JoyDeviceAdded { which: u32 },
    /// A joystick was detached; `which` is its instance id.
    JoyDeviceRemoved { which: u32 },
    /// A controller was attached; `which` is its device index.
    ControllerDeviceAdded { which: u32 },
    /// A controller was detached; `which` is its instance id.
    ControllerDeviceRemoved { which: u32 },
    /// An axis of the device with instance id `which` moved.
    ControllerAxisMotion { which: u32, axis: Axis, value: i16 },
    /// A button of the device with instance id `which` went down.
    ControllerButtonDown { which: u32, button: Button },
    /// A button of the device with instance id `which` went up.
    ControllerButtonUp { which: u32, button: Button },
    /// Any other event.
    Other,
}

/// What the caller has to do after one turn of the poll cycle.
#[derive(Clone, Copy, Debug, PartialEq, Eq, Structural)]
pub enum PollAction {
    /// Nothing; go on with the next turn.
    Continue,
    /// Open the device with this device index if it is a supported
    /// controller, report it with `controller_opened`, and go on.
    OpenDevice { device_index: u32 },
    /// Release every handle of the device with this instance id, and go on.
    CloseDevice { instance_id: u32 },
    /// Read every open handle in full, hand the readings to `refresh`, and
    /// end the cycle.
    Refresh,
}

/// All six axes and all fifteen buttons of one open device, read directly
/// from its handle. Position `i` of `axes` holds the raw value of the axis
/// that feeds canonical axis slot `i`; position `i` of `buttons` holds
/// whether the button that feeds canonical button slot `i` is held.
#[derive(Clone, Copy, Debug, PartialEq, Eq)]
pub struct DeviceReading {
    pub instance_id: u32,
    pub axes: [i16; 6],
    pub buttons: [bool; 15],
}

impl ControllerDataView {
    /// The device with one axis slot overwritten.
    pub open spec fn with_axis(self, slot: int, value: AxisValue) -> ControllerDataView {
        ControllerDataView {
            name: self.name,
            buttons: self.buttons,
            axes: self.axes.update(slot, value),
        }
    }

    /// The device with one button slot overwritten.
    pub open spec fn with_button(self, slot: int, pressed: bool) -> ControllerDataView {
        ControllerDataView {
            name: self.name,
            buttons: self.buttons.update(slot, pressed),
            axes: self.axes,
        }
    }

    /// The device with every slot overwritten from a full reading.
    pub open spec fn refreshed(self, reading: DeviceReading) -> ControllerDataView {
        ControllerDataView {
            name: self.name,
            buttons: reading.buttons@,
            axes: Seq::new(
                AXIS_COUNT as nat,
                |i: int| axis_of_slot(i).normalized(reading.axes@[i]),
            ),
        }
    }
}

/// The device table after one event.
pub open spec fn after_event(
    devices: Map<u32, ControllerDataView>,
    event: ControllerEvent,
) -> Map<u32, ControllerDataView> {
    match event {
        ControllerEvent::JoyDeviceRemoved { which } => devices.remove(which),
        ControllerEvent::ControllerDeviceRemoved { which } => devices.remove(which),
        ControllerEvent::ControllerAxisMotion { which, axis, value } => {
            if devices.contains_key(which) {
                devices.insert(
                    which,
                    devices[which].with_axis(axis.slot(), axis.normalized(value)),
                )
            } else {
                devices
            }
        },
        ControllerEvent::ControllerButtonDown { which, button } => {
            if devices.contains_key(which) {
                devices.insert(which, devices[which].with_button(button.slot(), true))
            } else {
                devices
            }
        },
        ControllerEvent::ControllerButtonUp { which, button } => {
            if devices.contains_key(which) {
                devices.insert(which, devices[which].with_button(button.slot(), false))
            } else {
                devices
            }
        },
        _ => devices,
    }
}

/// The device table after one turn of the poll cycle.
pub open spec fn after_turn(
    devices: Map<u32, ControllerDataView>,
    event: Option<ControllerEvent>,
) -> Map<u32, ControllerDataView> {
    match event {
        Some(event) => after_event(devices, event),
        None => devices,
    }
}

/// What the caller has to do after a turn: a full refresh when the queue was
/// empty, opening or closing handles on hot-plug events, nothing otherwise.
pub open spec fn action_for(event: Option<ControllerEvent>) -> PollAction {
    match event {
        None => PollAction::Refresh,
        Some(ControllerEvent::JoyDeviceAdded { which }) => PollAction::OpenDevice {
            device_index: which,
        },
        Some(ControllerEvent::JoyDeviceRemoved { which }) => PollAction::CloseDevice {
            instance_id: which,
        },
        Some(ControllerEvent::ControllerDeviceRemoved { which }) => PollAction::CloseDevice {
            instance_id: which,
        },
        Some(_) => PollAction::Continue,
    }
}

/// The device table after a full reading of one device: the device is
/// overwritten if the table knows it, otherwise nothing changes.
pub open spec fn after_reading(
    devices: Map<u32, ControllerDataView>,
    reading: DeviceReading,
) -> Map<u32, ControllerDataView> {
    if devices.contains_key(reading.instance_id) {
        devices.insert(reading.instance_id, devices[reading.instance_id].refreshed(reading))
    } else {
        devices
    }
}

/// The device table after a refresh pass: the readings applied in order.
pub open spec fn after_refresh(
    devices: Map<u32, ControllerDataView>,
    readings: Seq<DeviceReading>,
) -> Map<u32, ControllerDataView>
    decreases readings.len(),
{
    if readings.len() == 0 {
        devices
    } else {
        after_reading(after_refresh(devices, readings.drop_last()), readings.last())
    }
}

/// The device table seeded from the devices found open at start-up, each
/// given as instance id and name, in order.
pub open spec fn seeded(opened: Seq<(u32, String)>) -> Map<u32, ControllerDataView>
    decreases opened.len(),
{
    if opened.len() == 0 {
        Map::empty()
    } else {
        seeded(opened.drop_last()).insert(
            opened.last().0,
            ControllerDataView::fresh(opened.last().1@),
        )
    }
}

/// Every device of a table has fifteen buttons and six axes.
pub open spec fn table_well_formed(devices: Map<u32, ControllerDataView>) -> bool {
    forall|id: u32| devices.contains_key(id) ==> (#[trigger] devices[id]).well_formed()
}

/// What is reported for one slot of the fixed-slot backend after a probe:
/// nothing in steady state, otherwise the transition it made.
pub open spec fn slot_transition(slot: usize, before: bool, now: bool) -> Seq<Diagnostic> {
    if before == now {
        Seq::empty()
    } else if now {
        seq![Diagnostic::Connected { slot }]
    } else {
        seq![Diagnostic::Disconnected { slot }]
    }
}

/// The transitions of the slots below `upto`, in slot order.
pub open spec fn slot_transitions(slots: Seq<XInputState>, answers: Seq<bool>, upto: int) -> Seq<
    Diagnostic,
>
    decreases upto,
{
    if upto <= 0 {
        Seq::empty()
    } else {
        slot_transitions(slots, answers, upto - 1) + slot_transition(
            (upto - 1) as usize,
            slots[upto - 1].connected,
            answers[upto - 1],
        )
    }
}

/// A remembered slot state with its connection flag replaced.
pub open spec fn with_connected(state: XInputState, connected: bool) -> XInputState {
    XInputState {
        connected,
        buttons: state.buttons,
        left_x: state.left_x,
        left_y: state.left_y,
        right_x: state.right_x,
        right_y: state.right_y,
        left_trigger: state.left_trigger,
        right_trigger: state.right_trigger,
    }
}

/// The remembered slot states after a probe of all four slots: each keeps
/// its raw values and takes the answer as its connection flag.
pub open spec fn after_probe(slots: Seq<XInputState>, answers: Seq<bool>) -> Seq<XInputState> {
    Seq::new(XINPUT_SLOTS as nat, |i: int| with_connected(slots[i], answers[i]))
}

/// Owner of the device table and of the remembered slot states.
pub struct ControllerManager {
    controller_states: HashMap<u32, ControllerData>,
    xinput_previous_states: [XInputState; 4],
}

impl ControllerManager {
    /// The device table: for each instance id of a live device of the
    /// event-driven backend, its name, buttons and axes.
    pub closed spec fn devices(&self) -> Map<u32, ControllerDataView> {
        self.controller_states@.map_values(|data: ControllerData| data@)
    }

    /// What the four slots of the fixed-slot backend were last seen with.
    pub closed spec fn slots(&self) -> Seq<XInputState> {
        self.xinput_previous_states@
    }

    /// Every device of the table has fifteen buttons and six axes.
    pub open spec fn well_formed(&self) -> bool {
        table_well_formed(self.devices())
    }

    #[verifier::type_invariant]
    spec fn table_invariant(self) -> bool {
        table_well_formed(self.devices())
    }

    /// Moves the table out of the manager, leaving an empty one behind.
    fn take_table(&mut self) -> (table: HashMap<u32, ControllerData>)
        ensures
            table@.map_values(|data: ControllerData| data@) == old(self).devices(),
            table_well_formed(old(self).devices()),
            final(self).slots() == old(self).slots(),
    {
        proof {
            use_type_invariant(&*self);
        }
        let mut table: HashMap<u32, ControllerData> = HashMap::new();
        assert(table@.map_values(|data: ControllerData| data@) =~= Map::<
            u32,
            ControllerDataView,
        >::empty());
        std::mem::swap(&mut self.controller_states, &mut table);
        table
    }

    /// Moves a table into the manager.
    fn restore_table(&mut self, table: HashMap<u32, ControllerData>)
        requires
            table_well_formed(table@.map_values(|data: ControllerData| data@)),
        ensures
            final(self).devices() == table@.map_values(|data: ControllerData| data@),
            final(self).well_formed(),
            final(self).slots() == old(self).slots(),
    {
        let mut table = table;
        std::mem::swap(&mut self.controller_states, &mut table);
    }

    /// A manager whose table holds a fresh state for each device found open
    /// at start-up, and whose four slots were never seen connected.
    pub fn new(opened: Vec<(u32, String)>) -> (manager: Self)
        ensures
            manager.well_formed(),
            manager.devices() == seeded(opened@),
            manager.slots() == Seq::new(4, |slot: int| XInputState::spec_default()),
    {
        let mut manager = ControllerManager {
            controller_states: HashMap::new(),
            xinput_previous_states: [
                XInputState::default(),
                XInputState::default(),
                XInputState::default(),
                XInputState::default(),
            ],
        };
        assert(manager.devices() =~= seeded(opened@.take(0)));
        assert(manager.slots() =~= Seq::new(4, |slot: int| XInputState::spec_default()));
        let mut i: usize = 0;
        while i < opened.len()
            invariant
                i <= opened.len(),
                manager.well_formed(),
                manager.devices() == seeded(opened@.take(i as int)),
                manager.slots() == Seq::new(4, |slot: int| XInputState::spec_default()),
            decreases opened.len() - i,
        {
            let instance_id: u32 = opened[i].0;
            let name = opened[i].1.clone();
            manager.controller_opened(instance_id, name);
            proof {
                assert(opened@.take(i as int + 1).drop_last() == opened@.take(i as int));
                assert(opened@.take(i as int + 1).last() == opened@[i as int]);
            }
            i += 1;
        }
        assert(opened@.take(opened.len() as int) == opened@);
        manager
    }

    /// Enters a device that the caller just opened: whatever the table held
    /// under this instance id is replaced by a fresh state.
    pub fn controller_opened(&mut self, instance_id: u32, name: String)
        ensures
            final(self).well_formed(),
            final(self).devices() == old(self).devices().insert(
                instance_id,
                ControllerDataView::fresh(name@),
            ),
            final(self).slots() == old(self).slots(),
    {
        broadcast use group_hash_axioms;

        let mut buttons: Vec<bool> = Vec::new();
        let mut b: usize = 0;
        while b < BUTTON_COUNT
            invariant
                b <= BUTTON_COUNT,
                buttons@.len() == b,
                forall|i: int| 0 <= i < b ==> buttons@[i] == false,
            decreases BUTTON_COUNT - b,
        {
            buttons.push(false);
            b += 1;
        }
        let mut axes: Vec<AxisValue> = Vec::new();
        let mut a: usize = 0;
        while a < AXIS_COUNT
            invariant
                a <= AXIS_COUNT,
                axes@.len() == a,
                forall|i: int| 0 <= i < a ==> axes@[i] == AxisValue::spec_zero(),
            decreases AXIS_COUNT - a,
        {
            axes.push(AxisValue::zero());
            a += 1;
        }
        let data = ControllerData { name, buttons, axes };
        assert(data@.buttons =~= ControllerDataView::fresh(name@).buttons);
        assert(data@.axes =~= ControllerDataView::fresh(name@).axes);
        let mut table = self.take_table();
        table.insert(instance_id, data);
        assert(table@.map_values(|data: ControllerData| data@) =~= old(self).devices().insert(
            instance_id,
            ControllerDataView::fresh(name@),
        ));
        self.restore_table(table);
    }

    /// Whether the poll cycle may take another turn after `elapsed_micros`
    /// microseconds: only while less than the budget has passed.
    pub fn poll_budget_open(elapsed_micros: u128) -> (open: bool)
        ensures
            open == (elapsed_micros < POLL_BUDGET_MICROS),
    {
        elapsed_micros < POLL_BUDGET_MICROS
    }

    /// One turn of the poll cycle. `event` is the event that the caller took
    /// from the backend's queue, or `None` when the queue was empty.
    ///
    /// A removal drops the device from the table; axis and button events
    /// overwrite one slot of a device that the table knows and are ignored
    /// otherwise; an attachment changes nothing until the caller reports the
    /// opened device. The answer tells the caller what to do next; it is
    /// `Refresh`, which ends the cycle, exactly when the queue was empty.
    pub fn poll(&mut self, event: Option<ControllerEvent>) -> (action: PollAction)
        ensures
            final(self).well_formed(),
            final(self).devices() == after_turn(old(self).devices(), event),
            final(self).slots() == old(self).slots(),
            action == action_for(event),
            action is Refresh <==> event is None,
    {
        proof {
            use_type_invariant(&*self);
        }
        match event {
            None => PollAction::Refresh,
            Some(ControllerEvent::JoyDeviceAdded { which }) => PollAction::OpenDevice {
                device_index: which,
            },
            Some(ControllerEvent::JoyDeviceRemoved { which }) => {
                self.remove_device(which);
                PollAction::CloseDevice { instance_id: which }
            },
            Some(ControllerEvent::ControllerDeviceAdded { which }) => PollAction::Continue,
            Some(ControllerEvent::ControllerDeviceRemoved { which }) => {
                self.remove_device(which);
                PollAction::CloseDevice { instance_id: which }
            },
            Some(ControllerEvent::ControllerAxisMotion { which, axis, value }) => {
                let axis_index = map_sdl_axis(axis);
                self.set_axis(which, axis_index, normalize_sdl_axis(axis, value));
                PollAction::Continue
            },
            Some(ControllerEvent::ControllerButtonDown { which, button }) => {
                self.set_button(which, map_sdl_button(button), true);
                PollAction::Continue
            },
            Some(ControllerEvent::ControllerButtonUp { which, button }) => {
                self.set_button(which, map_sdl_button(button), false);
                PollAction::Continue
            },
            Some(ControllerEvent::Other) => PollAction::Continue,
        }
    }

    /// Drops a device from the table; nothing happens if it is not there.
    pub fn remove_device(&mut self, instance_id: u32)
        ensures
            final(self).well_formed(),
            final(self).devices() == old(self).devices().remove(instance_id),
            final(self).slots() == old(self).slots(),
    {
        broadcast use group_hash_axioms;

        let mut table = self.take_table();
        table.remove(&instance_id);
        assert(table@.map_values(|data: ControllerData| data@) =~= old(self).devices().remove(
            instance_id,
        ));
        self.restore_table(table);
    }

    /// Overwrites one axis slot of a device; nothing happens if the table
    /// does not know the device.
    fn set_axis(&mut self, instance_id: u32, slot: usize, value: AxisValue)
        requires
            slot < AXIS_COUNT,
            value.well_formed(),
        ensures
            final(self).well_formed(),
            final(self).devices() == (if old(self).devices().contains_key(instance_id) {
                old(self).devices().insert(
                    instance_id,
                    old(self).devices()[instance_id].with_axis(slot as int, value),
                )
            } else {
                old(self).devices()
            }),
            final(self).slots() == old(self).slots(),
    {
        broadcast use group_hash_axioms;

        let mut table = self.take_table();
        match table.remove(&instance_id) {
            Some(data) => {
                let mut data = data;
                assert(old(self).devices().contains_key(instance_id));
                assert(old(self).devices()[instance_id] == data@);
                assert(data@.well_formed());
                data.axes[slot] = value;
                let ghost after = data@;
                table.insert(instance_id, data);
                assert(after.axes =~= old(self).devices()[instance_id].with_axis(
                    slot as int,
                    value,
                ).axes);
                assert(table@.map_values(|data: ControllerData| data@) =~= old(
                    self,
                ).devices().insert(instance_id, after));
            },
            None => {
                assert(table@.map_values(|data: ControllerData| data@) =~= old(self).devices());
            },
        }
        self.restore_table(table);
    }

    /// Overwrites one button slot of a device; nothing happens if the table
    /// does not know the device.
    fn set_button(&mut self, instance_id: u32, slot: usize, pressed: bool)
        requires
            slot < BUTTON_COUNT,
        ensures
            final(self).well_formed(),
            final(self).devices() == (if old(self).devices().contains_key(instance_id) {
                old(self).devices().insert(
                    instance_id,
                    old(self).devices()[instance_id].with_button(slot as int, pressed),
                )
            } else {
                old(self).devices()
            }),
            final(self).slots() == old(self).slots(),
    {
        broadcast use group_hash_axioms;

        let mut table = self.take_table();
        match table.remove(&instance_id) {
            Some(data) => {
                let mut data = data;
                assert(old(self).devices().contains_key(instance_id));
                assert(old(self).devices()[instance_id] == data@);
                assert(data@.well_formed());
                data.buttons[slot] = pressed;
                let ghost after = data@;
                table.insert(instance_id, data);
                assert(table@.map_values(|data: ControllerData| data@) =~= old(
                    self,
                ).devices().insert(instance_id, after));
            },
            None => {
                assert(table@.map_values(|data: ControllerData| data@) =~= old(self).devices());
            },
        }
        self.restore_table(table);
    }

    /// Overwrites every slot of one device from a full reading of its
    /// handle; nothing happens if the table does not know the device.
    pub fn refresh_device(&mut self, reading: &DeviceReading)
        ensures
            final(self).well_formed(),
            final(self).devices() == after_reading(old(self).devices(), *reading),
            final(self).slots() == old(self).slots(),
    {
        broadcast use group_hash_axioms;

        let mut table = self.take_table();
        match table.remove(&reading.instance_id) {
            Some(data) => {
                assert(old(self).devices().contains_key(reading.instance_id));
                assert(old(self).devices()[reading.instance_id] == data@);
                let mut axes: Vec<AxisValue> = Vec::new();
                let mut a: usize = 0;
                while a < AXIS_COUNT
                    invariant
                        a <= AXIS_COUNT,
                        axes@.len() == a,
                        forall|i: int|
                            0 <= i < a ==> axes@[i] == axis_of_slot(i).normalized(
                                reading.axes@[i],
                            ),
                    decreases AXIS_COUNT - a,
                {
                    match axis_for_slot(a) {
                        Some(axis) => {
                            axes.push(normalize_sdl_axis(axis, reading.axes[a]));
                        },
                        None => {},
                    }
                    a += 1;
                }
                let mut buttons: Vec<bool> = Vec::new();
                let mut b: usize = 0;
                while b < BUTTON_COUNT
                    invariant
                        b <= BUTTON_COUNT,
                        buttons@.len() == b,
                        forall|i: int| 0 <= i < b ==> buttons@[i] == reading.buttons@[i],
                    decreases BUTTON_COUNT - b,
                {
                    buttons.push(reading.buttons[b]);
                    b += 1;
                }
                let fresh = ControllerData { name: data.name, buttons, axes };
                let ghost after = fresh@;
                assert(after.buttons =~= data@.refreshed(*reading).buttons);
                assert(after.axes =~= data@.refreshed(*reading).axes);
                table.insert(reading.instance_id, fresh);
                assert(table@.map_values(|data: ControllerData| data@) =~= old(
                    self,
                ).devices().insert(reading.instance_id, after));
            },
            None => {
                assert(table@.map_values(|data: ControllerData| data@) =~= old(self).devices());
            },
        }
        self.restore_table(table);
    }

    /// The refresh pass that ends a poll cycle: the full readings of all open
    /// handles, applied in order.
    pub fn refresh(&mut self, readings: &Vec<DeviceReading>)
        ensures
            final(self).well_formed(),
            final(self).devices() == after_refresh(old(self).devices(), readings@),
            final(self).devices().dom() == old(self).devices().dom(),
            final(self).slots() == old(self).slots(),
    {
        proof {
            use_type_invariant(&*self);
        }
        let mut i: usize = 0;
        assert(readings@.take(0) =~= Seq::<DeviceReading>::empty());
        while i < readings.len()
            invariant
                i <= readings.len(),
                self.well_formed(),
                self.devices() == after_refresh(old(self).devices(), readings@.take(i as int)),
                self.devices().dom() == old(self).devices().dom(),
                self.slots() == old(self).slots(),
            decreases readings.len() - i,
        {
            let ghost before = self.devices();
            self.refresh_device(&readings[i]);
            proof {
                assert(readings@.take(i as int + 1).drop_last() == readings@.take(i as int));
                assert(readings@.take(i as int + 1).last() == readings@[i as int]);
                assert(self.devices().dom() =~= before.dom());
            }
            i += 1;
        }
        assert(readings@.take(readings.len() as int) == readings@);
    }

    /// Whether the table knows a device.
    pub fn has_device(&self, instance_id: u32) -> (known: bool)
        ensures
            known == self.devices().contains_key(instance_id),
    {
        broadcast use group_hash_axioms;

        self.controller_states.contains_key(&instance_id)
    }

    /// Number of devices in the table.
    pub fn device_count(&self) -> (count: usize)
        ensures
            count == self.devices().dom().len(),
    {
        broadcast use group_hash_axioms;

        assert(self.devices().dom() =~= self.controller_states@.dom());
        self.controller_states.len()
    }

    /// Snapshot of one device of the event-driven backend: its buttons and
    /// axes as the table holds them, or `None` if the table does not know
    /// the device.
    pub fn device_state(&self, instance_id: u32) -> (state: Option<GamepadState>)
        ensures
            state is Some <==> self.devices().contains_key(instance_id),
            state is Some ==> state.unwrap()@ == self.devices()[instance_id].snapshot()
                && state.unwrap()@.well_formed(),
    {
        broadcast use group_hash_axioms;

        proof {
            use_type_invariant(self);
        }
        match self.controller_states.get(&instance_id) {
            Some(data) => {
                assert(self.devices()[instance_id] == data@);
                Some(
                    GamepadState {
                        buttons: copy_buttons(&data.buttons),
                        axes: copy_axes(&data.axes),
                    },
                )
            },
            None => None,
        }
    }

    /// A copy of the whole table: one entry per device, as instance id,
    /// name, buttons and axes. No instance id occurs twice; the order of the
    /// entries is not fixed.
    pub fn get_controller_states(&self) -> (states: Vec<(u32, String, Vec<bool>, Vec<AxisValue>)>)
        ensures
            is_table_copy(self.devices(), states@),
            states@.len() == self.devices().dom().len(),
    {
        broadcast use group_hash_axioms;

        let mut states: Vec<(u32, String, Vec<bool>, Vec<AxisValue>)> = Vec::new();
        let ghost table = self.controller_states@;
        assert(self.devices().dom() =~= table.dom());
        for entry in walk: self.controller_states.iter()
            invariant
                table == self.controller_states@,
                states@.len() == walk.index(),
                walk.seq().len() == table.dom().len(),
                walk.seq().no_duplicates(),
                forall|i: int|
                    0 <= i < walk.seq().len() ==> table.contains_key(
                        *(#[trigger] walk.seq()[i]).0,
                    ) && table[*walk.seq()[i].0] == *walk.seq()[i].1,
                forall|id: u32|
                    table.contains_key(id) ==> exists|i: int|
                        0 <= i < walk.seq().len() && *(#[trigger] walk.seq()[i]).0 == id,
                forall|i: int|
                    #![trigger states@[i]]
                    #![trigger walk.seq()[i]]
                    0 <= i < states@.len() ==> states@[i].0 == *walk.seq()[i].0 && entry_view(
                        states@[i],
                    ) == (*walk.seq()[i].1)@,
                forall|i: int, j: int| 0 <= i < j < states@.len() ==> states@[i].0 != states@[j].0,
        {
            let (id, data) = entry;
            proof {
                let seen = walk.seq();
                let n = states@.len() as int;
                assert forall|i: int| 0 <= i < n implies states@[i].0 != *id by {
                    if states@[i].0 == *id {
                        assert(table[*seen[i].0] == *seen[i].1);
                        assert(table[*seen[n].0] == *seen[n].1);
                        assert(seen[i] == seen[n]);
                    }
                }
            }
            states.push((*id, data.name.clone(), copy_buttons(&data.buttons), copy_axes(&data.axes)));
        }
        proof {
            assert forall|id: u32| self.devices().contains_key(id) implies exists|i: int|
                0 <= i < states@.len() && (#[trigger] states@[i]).0 == id by {
                assert(table.contains_key(id));
            }
        }
        states
    }

    /// There are always four remembered slot states.
    pub proof fn lemma_four_slots(&self)
        ensures
            self.slots().len() == XINPUT_SLOTS,
    {
        broadcast use vstd::array::group_array_axioms;

    }

    /// What a slot of the fixed-slot backend was last seen with; `None`
    /// outside the four slots.
    pub fn previous_state(&self, slot: usize) -> (state: Option<XInputState>)
        ensures
            state is Some <==> slot < XINPUT_SLOTS,
            state is Some ==> state.unwrap() == self.slots()[slot as int],
    {
        if slot < XINPUT_SLOTS {
            Some(self.xinput_previous_states[slot])
        } else {
            None
        }
    }

    /// Takes note of which of the four slots answered a probe. `answers[i]`
    /// says whether slot `i` answered. Each slot takes its answer as its
    /// connection flag and keeps its raw values; the result lists the slots
    /// whose flag changed, in slot order.
    pub fn probe_slots(&mut self, answers: &[bool; 4]) -> (events: Vec<Diagnostic>)
        ensures
            final(self).devices() == old(self).devices(),
            final(self).slots() == after_probe(old(self).slots(), answers@),
            events@ == slot_transitions(old(self).slots(), answers@, XINPUT_SLOTS as int),
    {
        broadcast use vstd::array::group_array_axioms;

        proof {
            use_type_invariant(&*self);
        }
        let mut events: Vec<Diagnostic> = Vec::new();
        let mut slot: usize = 0;
        while slot < XINPUT_SLOTS
            invariant
                slot <= XINPUT_SLOTS,
                self.devices() == old(self).devices(),
                table_well_formed(old(self).devices()),
                self.slots().len() == XINPUT_SLOTS,
                old(self).slots().len() == XINPUT_SLOTS,
                forall|i: int|
                    0 <= i < slot ==> self.slots()[i] == with_connected(
                        old(self).slots()[i],
                        answers@[i],
                    ),
                forall|i: int| slot <= i < XINPUT_SLOTS ==> self.slots()[i] == old(self).slots()[i],
                events@ == slot_transitions(old(self).slots(), answers@, slot as int),
            decreases XINPUT_SLOTS - slot,
        {
            let mut state = self.xinput_previous_states[slot];
            let answered = answers[slot];
            if answered {
                if !state.connected {
                    events.push(Diagnostic::Connected { slot });
                    state.connected = true;
                }
            } else {
                if state.connected {
                    events.push(Diagnostic::Disconnected { slot });
                    state.connected = false;
                }
            }
            self.xinput_previous_states[slot] = state;
            slot += 1;
            assert(events@ =~= slot_transitions(old(self).slots(), answers@, slot as int));
        }
        assert(self.slots() =~= after_probe(old(self).slots(), answers@));
        events
    }

    /// State query of one slot of the fixed-slot backend. `reading` is what
    /// the slot answered, or `None` when it did not answer.
    ///
    /// Without an answer, or outside the four slots, the result is `None` and
    /// nothing changes. With an answer the result is the canonical snapshot
    /// of the reading; the slot then remembers the raw values of the reading,
    /// and the second component lists what changed enough against the values
    /// it remembered before.
    pub fn probe_state(&mut self, slot: usize, reading: Option<XInputReading>) -> (result: (
        Option<GamepadState>,
        Vec<Diagnostic>,
    ))
        ensures
            final(self).devices() == old(self).devices(),
            result.0 is Some <==> reading is Some && slot < XINPUT_SLOTS,
            result.0 is Some ==> {
                &&& result.0.unwrap()@ == reading_snapshot(reading.unwrap())
                &&& result.0.unwrap()@.well_formed()
                &&& result.0.unwrap()@.buttons[8] == false
                &&& result.1@ == reading_diagnostics(
                    slot,
                    old(self).slots()[slot as int],
                    reading.unwrap(),
                )
                &&& final(self).slots() == old(self).slots().update(
                    slot as int,
                    recorded(old(self).slots()[slot as int], reading.unwrap()),
                )
            },
            result.0 is None ==> final(self).slots() == old(self).slots() && result.1@.len() == 0,
    {
        broadcast use vstd::array::group_array_axioms;

        proof {
            use_type_invariant(&*self);
        }
        match reading {
            Some(reading) => {
                if slot < XINPUT_SLOTS {
                    let previous = self.xinput_previous_states[slot];
                    let events = xinput_diagnostics(slot, &previous, &reading);
                    let state = xinput_gamepad_state(&reading);
                    self.xinput_previous_states[slot] = record_reading(&previous, &reading);
                    assert(self.slots() =~= old(self).slots().update(
                        slot as int,
                        recorded(old(self).slots()[slot as int], reading),
                    ));
                    (Some(state), events)
                } else {
                    (None, Vec::new())
                }
            },
            None => (None, Vec::new()),
        }
    }
}

/// What one entry of a table copy says of its device.
pub open spec fn entry_view(entry: (u32, String, Vec<bool>, Vec<AxisValue>)) -> ControllerDataView {
    ControllerDataView { name: entry.1@, buttons: entry.2@, axes: entry.3@ }
}

/// Whether a sequence of entries is a copy of a device table: every entry
/// shows a device of the table as the table holds it, every device of the
/// table has an entry, and no instance id occurs twice. The order of the
/// entries is left open.
pub open spec fn is_table_copy(
    devices: Map<u32, ControllerDataView>,
    states: Seq<(u32, String, Vec<bool>, Vec<AxisValue>)>,
) -> bool {
    &&& forall|i: int|
        0 <= i < states.len() ==> devices.contains_key((#[trigger] states[i]).0)
            && devices[states[i].0] == entry_view(states[i])
    &&& forall|id: u32|
        devices.contains_key(id) ==> exists|i: int|
            0 <= i < states.len() && (#[trigger] states[i]).0 == id
    &&& forall|i: int, j: int| 0 <= i < j < states.len() ==> states[i].0 != states[j].0
}

/// A copy of a button vector.
pub fn copy_buttons(buttons: &Vec<bool>) -> (copy: Vec<bool>)
    ensures
        copy@ == buttons@,
{
    let mut copy: Vec<bool> = Vec::new();
    let mut i: usize = 0;
    while i < buttons.len()
        invariant
            i <= buttons.len(),
            copy@ == buttons@.take(i as int),
        decreases buttons.len() - i,
    {
        copy.push(buttons[i]);
        assert(copy@ =~= buttons@.take(i as int + 1));
        i += 1;
    }
    assert(buttons@.take(buttons.len() as int) == buttons@);
    copy
}

/// A copy of an axis vector.
pub fn copy_axes(axes: &Vec<AxisValue>) -> (copy: Vec<AxisValue>)
    ensures
        copy@ == axes@,
{
    let mut copy: Vec<AxisValue> = Vec::new();
    let mut i: usize = 0;
    while i < axes.len()
        invariant
            i <= axes.len(),
            copy@ == axes@.take(i as int),
        decreases axes.len() - i,
    {
        copy.push(axes[i]);
        assert(copy@ =~= axes@.take(i as int + 1));
        i += 1;
    }
    assert(axes@.take(axes.len() as int) == axes@);
    copy
}

/// The answers of a poll cycle that finds `queue` waiting and has budget for
/// all of it: one per event, then the one for the empty queue.
pub open spec fn cycle_actions(queue: Seq<ControllerEvent>) -> Seq<PollAction> {
    Seq::new(
        queue.len() + 1,
        |i: int|
            if i < queue.len() {
                action_for(Some(queue[i]))
            } else {
                action_for(None)
            },
    )
}

/// A poll cycle asks for exactly one refresh: as its last answer, when the
/// queue is found empty. With nothing waiting the refresh is all it asks
/// for.
pub proof fn lemma_one_refresh_per_cycle(queue: Seq<ControllerEvent>)
    ensures
        forall|i: int|
            0 <= i < cycle_actions(queue).len() ==> ((#[trigger] cycle_actions(queue)[i])
                is Refresh <==> i == queue.len()),
        queue.len() == 0 ==> cycle_actions(queue) == seq![PollAction::Refresh],
{
    if queue.len() == 0 {
        assert(cycle_actions(queue) =~= seq![PollAction::Refresh]);
    }
}

/// Events keep the table well formed, and only removals change which
/// devices it holds.
pub proof fn lemma_event_keeps_table(devices: Map<u32, ControllerDataView>, event: ControllerEvent)
    requires
        table_well_formed(devices),
    ensures
        table_well_formed(after_event(devices, event)),
        after_event(devices, event).dom().subset_of(devices.dom()),
        !(event is JoyDeviceRemoved || event is ControllerDeviceRemoved) ==> after_event(
            devices,
            event,
        ).dom() == devices.dom(),
{
    let after = after_event(devices, event);
    assert forall|id: u32| after.contains_key(id) implies (#[trigger] after[id]).well_formed() by {
        assert(devices.contains_key(id));
        assert(devices[id].well_formed());
        match event {
            ControllerEvent::ControllerAxisMotion { which, axis, value } => {
                if which == id {
                    assert(after[id] == devices[id].with_axis(axis.slot(), axis.normalized(value)));
                }
            },
            _ => {},
        }
    }
    if !(event is JoyDeviceRemoved || event is ControllerDeviceRemoved) {
        assert(after.dom() =~= devices.dom());
    }
}

/// Removing a device is idempotent, and a removal undoes an opening of a
/// device that the table did not hold.
pub proof fn lemma_removal(devices: Map<u32, ControllerDataView>, id: u32, name: Seq<char>)
    ensures
        !after_event(devices, ControllerEvent::JoyDeviceRemoved { which: id }).contains_key(id),
        after_event(
            after_event(devices, ControllerEvent::JoyDeviceRemoved { which: id }),
            ControllerEvent::JoyDeviceRemoved { which: id },
        ) == after_event(devices, ControllerEvent::JoyDeviceRemoved { which: id }),
        after_event(devices, ControllerEvent::ControllerDeviceRemoved { which: id }) == after_event(
            devices,
            ControllerEvent::JoyDeviceRemoved { which: id },
        ),
        !devices.contains_key(id) ==> after_event(
            devices.insert(id, ControllerDataView::fresh(name)),
            ControllerEvent::JoyDeviceRemoved { which: id },
        ) == devices,
{
    assert(devices.remove(id).remove(id) =~= devices.remove(id));
    if !devices.contains_key(id) {
        assert(devices.insert(id, ControllerDataView::fresh(name)).remove(id) =~= devices);
    }
}

/// A refresh pass keeps the set of devices and their names, and leaves
/// every device untouched that no reading names.
pub proof fn lemma_refresh_keeps_devices(
    devices: Map<u32, ControllerDataView>,
    readings: Seq<DeviceReading>,
)
    requires
        table_well_formed(devices),
    ensures
        table_well_formed(after_refresh(devices, readings)),
        after_refresh(devices, readings).dom() == devices.dom(),
        forall|id: u32|
            devices.contains_key(id) ==> (#[trigger] after_refresh(devices, readings)[id]).name
                == devices[id].name,
        forall|id: u32|
            devices.contains_key(id) && (forall|i: int|
                0 <= i < readings.len() ==> (#[trigger] readings[i]).instance_id != id)
                ==> after_refresh(devices, readings)[id] == devices[id],
    decreases readings.len(),
{
    broadcast use vstd::array::group_array_axioms;

    if readings.len() > 0 {
        let earlier = readings.drop_last();
        let last = readings.last();
        lemma_refresh_keeps_devices(devices, earlier);
        let before = after_refresh(devices, earlier);
        let after = after_refresh(devices, readings);
        assert(after == after_reading(before, last));
        assert(after.dom() =~= devices.dom());
        assert forall|id: u32| devices.contains_key(id) && (forall|i: int|
            0 <= i < readings.len() ==> (#[trigger] readings[i]).instance_id != id) implies after[id]
            == devices[id] by {
            assert(readings[readings.len() - 1].instance_id != id);
            assert forall|i: int| 0 <= i < earlier.len() implies (#[trigger] earlier[i]).instance_id
                != id by {
                assert(earlier[i] == readings[i]);
            }
        }
        assert forall|id: u32| after.contains_key(id) implies (#[trigger] after[id]).well_formed() by {
            assert(before.contains_key(id));
            assert(before[id].well_formed());
        }
    }
}

} // verus!
