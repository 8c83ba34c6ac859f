use gamepad_core::commands::{
    find_guid, get_gamepad_state, get_gamepads, sdl_gamepad_info, str_equal, xinput_gamepad_info,
};
use gamepad_core::managers::{ControllerEvent, ControllerManager};
use gamepad_core::models::{AxisValue, GamepadInfo, GamepadState, XInputState};
use gamepad_core::utils::{Axis, Button};
use gamepad_core::xinput::{Diagnostic, XInputReading};

fn xbox(slot: usize) -> GamepadInfo {
    GamepadInfo {
        id: slot,
        name: format!("Xbox Controller {}", slot + 1),
        controller_type: "xinput".to_string(),
        vendor_id: None,
        product_id: None,
    }
}

fn blank_reading() -> XInputReading {
    XInputReading {
        buttons: 0,
        left_x: 0,
        left_y: 0,
        right_x: 0,
        right_y: 0,
        left_trigger: 0,
        right_trigger: 0,
    }
}

fn lists(list: &[GamepadInfo], controller_type: &str, id: usize) -> bool {
    list.iter().any(|info| info.controller_type == controller_type && info.id == id)
}

#[test]
fn added_device_is_listed_until_removed() {
    let mut manager = ControllerManager::new(Vec::new());
    manager.poll(Some(ControllerEvent::JoyDeviceAdded { which: 0 }));
    manager.controller_opened(7, "Pad Seven".to_string());
    let guids = vec![(7, "030000005e0400008e02000014010000".to_string())];
    let (list, events) = get_gamepads(&mut manager, None, &guids);
    assert_eq!(events, vec![]);
    assert_eq!(
        list,
        vec![GamepadInfo {
            id: 7,
            name: "Pad Seven".to_string(),
            controller_type: "sdl".to_string(),
            vendor_id: Some(0x5e04),
            product_id: Some(0x0000),
        }]
    );
    assert!(lists(&list, "sdl", 7));

    manager.poll(Some(ControllerEvent::JoyDeviceRemoved { which: 7 }));
    let (list, _) = get_gamepads(&mut manager, None, &guids);
    assert!(!lists(&list, "sdl", 7));
    assert_eq!(list, vec![]);
}

#[test]
fn device_without_guid_is_listed_without_identifiers() {
    let mut manager = ControllerManager::new(vec![(7, "Pad".to_string())]);
    let (list, _) = get_gamepads(&mut manager, None, &Vec::new());
    assert_eq!(
        list,
        vec![GamepadInfo {
            id: 7,
            name: "Pad".to_string(),
            controller_type: "sdl".to_string(),
            vendor_id: None,
            product_id: None,
        }]
    );
}

#[test]
fn malformed_guid_gives_no_identifiers() {
    let mut manager = ControllerManager::new(vec![(7, "Pad".to_string())]);
    let (list, _) = get_gamepads(&mut manager, None, &vec![(7, "0300".to_string())]);
    assert_eq!(list[0].vendor_id, None);
    assert_eq!(list[0].product_id, None);
    let (list, _) = get_gamepads(&mut manager, None, &vec![(7, "00000000nothex000000".to_string())]);
    assert_eq!(list[0].vendor_id, None);
    assert_eq!(list[0].product_id, None);
}

#[test]
fn slots_that_answer_are_listed_first() {
    let mut manager = ControllerManager::new(vec![(7, "Pad".to_string())]);
    let (list, events) = get_gamepads(&mut manager, Some([false, true, false, true]), &Vec::new());
    assert_eq!(list.len(), 3);
    assert_eq!(list[0], xbox(1));
    assert_eq!(list[1], xbox(3));
    assert_eq!(list[2].controller_type, "sdl");
    assert_eq!(
        events,
        vec![Diagnostic::Connected { slot: 1 }, Diagnostic::Connected { slot: 3 }]
    );
    assert!(manager.previous_state(1).unwrap().connected);
    assert!(!manager.previous_state(0).unwrap().connected);
}

#[test]
fn all_four_slots() {
    let mut manager = ControllerManager::new(Vec::new());
    let (list, _) = get_gamepads(&mut manager, Some([true; 4]), &Vec::new());
    assert_eq!(list, vec![xbox(0), xbox(1), xbox(2), xbox(3)]);
    assert_eq!(list[0].name, "Xbox Controller 1");
    assert_eq!(list[3].name, "Xbox Controller 4");
}

#[test]
fn unreachable_fixed_slot_backend_changes_nothing() {
    let mut manager = ControllerManager::new(Vec::new());
    get_gamepads(&mut manager, Some([true; 4]), &Vec::new());
    let (list, events) = get_gamepads(&mut manager, None, &Vec::new());
    assert_eq!(list, vec![]);
    assert_eq!(events, vec![]);
    assert!(manager.previous_state(0).unwrap().connected);
}

#[test]
fn transitions_are_reported_once() {
    let mut manager = ControllerManager::new(Vec::new());
    let (_, events) = get_gamepads(&mut manager, Some([true, false, false, false]), &Vec::new());
    assert_eq!(events, vec![Diagnostic::Connected { slot: 0 }]);
    let (_, events) = get_gamepads(&mut manager, Some([true, false, false, false]), &Vec::new());
    assert_eq!(events, vec![]);
    let (list, events) = get_gamepads(&mut manager, Some([false; 4]), &Vec::new());
    assert_eq!(events, vec![Diagnostic::Disconnected { slot: 0 }]);
    assert_eq!(list, vec![]);
}

#[test]
fn every_device_of_the_table_is_listed_once() {
    let mut manager = ControllerManager::new(vec![
        (1, "One".to_string()),
        (2, "Two".to_string()),
        (40, "Forty".to_string()),
    ]);
    let guids = vec![
        (2, "00000000aaaabbbb".to_string()),
        (2, "00000000ccccdddd".to_string()),
        (99, "0000000011112222".to_string()),
    ];
    let (mut list, _) = get_gamepads(&mut manager, None, &guids);
    list.sort_by_key(|info| info.id);
    assert_eq!(list.len(), 3);
    assert_eq!(list[0].id, 1);
    assert_eq!(list[0].vendor_id, None);
    assert_eq!(list[1].id, 2);
    assert_eq!(list[1].name, "Two");
    assert_eq!(list[1].vendor_id, Some(0xaaaa));
    assert_eq!(list[1].product_id, Some(0xbbbb));
    assert_eq!(list[2].id, 40);
    assert!(!lists(&list, "sdl", 99));
    assert!(!lists(&list, "xinput", 1));
}

#[test]
fn empty_slot_gives_empty_result() {
    let mut manager = ControllerManager::new(Vec::new());
    for slot in 0..4 {
        let (state, events) = get_gamepad_state(&mut manager, slot, "xinput", None);
        assert_eq!(state, None);
        assert_eq!(events, vec![]);
    }
}

#[test]
fn xinput_state_has_canonical_shape() {
    let mut manager = ControllerManager::new(Vec::new());
    let reading = XInputReading { buttons: 0xffff, left_trigger: 255, ..blank_reading() };
    let (state, _) = get_gamepad_state(&mut manager, 0, "xinput", Some(reading));
    let state = state.unwrap();
    assert_eq!(state.buttons.len(), 15);
    assert_eq!(state.axes.len(), 6);
    assert!(!state.buttons[8]);
    assert_eq!(state.axes[4], AxisValue { raw: 255, divisor: 255, negated: false });
    assert_eq!(manager.previous_state(0).unwrap().buttons, 0xffff);
}

#[test]
fn xinput_state_outside_the_slots_is_empty() {
    let mut manager = ControllerManager::new(Vec::new());
    let (state, events) = get_gamepad_state(&mut manager, 4, "xinput", Some(blank_reading()));
    assert_eq!(state, None);
    assert_eq!(events, vec![]);
}

#[test]
fn sdl_state_comes_from_the_table() {
    let mut manager = ControllerManager::new(vec![(7, "Pad".to_string())]);
    manager.poll(Some(ControllerEvent::ControllerButtonDown { which: 7, button: Button::Y }));
    manager.poll(Some(ControllerEvent::ControllerAxisMotion {
        which: 7,
        axis: Axis::RightY,
        value: -500,
    }));
    let (state, events) = get_gamepad_state(&mut manager, 7, "sdl", Some(blank_reading()));
    assert_eq!(events, vec![]);
    let mut buttons = vec![false; 15];
    buttons[3] = true;
    let mut axes = vec![AxisValue { raw: 0, divisor: 1, negated: false }; 6];
    axes[3] = AxisValue { raw: -500, divisor: 32767, negated: true };
    assert_eq!(state, Some(GamepadState { buttons, axes }));
    assert_eq!(manager.previous_state(3), Some(XInputState::default()));
    assert_eq!(get_gamepad_state(&mut manager, 8, "sdl", None).0, None);
}

#[test]
fn sdl_id_beyond_32_bits_names_no_device() {
    let mut manager = ControllerManager::new(vec![
        (7, "Pad".to_string()),
        (0, "Zero".to_string()),
        (u32::MAX, "Last".to_string()),
    ]);
    if usize::BITS > 32 {
        let base = (1u64 << 32) as usize;
        for wide in [base, base + 7, base + u32::MAX as usize, usize::MAX] {
            let (state, events) = get_gamepad_state(&mut manager, wide, "sdl", None);
            assert_eq!(state, None);
            assert_eq!(events, vec![]);
        }
    }
    assert!(get_gamepad_state(&mut manager, 7, "sdl", None).0.is_some());
    assert!(get_gamepad_state(&mut manager, 0, "sdl", None).0.is_some());
    assert!(get_gamepad_state(&mut manager, u32::MAX as usize, "sdl", None).0.is_some());
    assert_eq!(manager.device_count(), 3);
}

#[test]
fn unknown_backend_gives_empty_result() {
    let mut manager = ControllerManager::new(vec![(0, "Pad".to_string())]);
    for name in ["", "XInput", "SDL", "xinput ", "sdl2", "A", "B", "hid"] {
        let (state, events) = get_gamepad_state(&mut manager, 0, name, Some(blank_reading()));
        assert_eq!(state, None);
        assert_eq!(events, vec![]);
    }
    assert_eq!(manager.previous_state(0), Some(XInputState::default()));
}

#[test]
fn the_same_id_on_both_backends() {
    let mut manager = ControllerManager::new(vec![(0, "Pad".to_string())]);
    let reading = XInputReading { buttons: 0x1000, ..blank_reading() };
    let (from_slot, _) = get_gamepad_state(&mut manager, 0, "xinput", Some(reading));
    let (from_table, _) = get_gamepad_state(&mut manager, 0, "sdl", Some(reading));
    assert!(from_slot.unwrap().buttons[0]);
    assert!(!from_table.unwrap().buttons[0]);
}

#[test]
fn list_entry_helpers() {
    assert_eq!(xinput_gamepad_info(2), Some(xbox(2)));
    assert_eq!(xinput_gamepad_info(4), None);
    let guid = "0000000012345678".to_string();
    assert_eq!(
        sdl_gamepad_info(5, &"Pad".to_string(), Some(&guid)),
        GamepadInfo {
            id: 5,
            name: "Pad".to_string(),
            controller_type: "sdl".to_string(),
            vendor_id: Some(0x1234),
            product_id: Some(0x5678),
        }
    );
    assert_eq!(sdl_gamepad_info(5, &"Pad".to_string(), None).vendor_id, None);
}

#[test]
fn first_guid_wins() {
    let guids = vec![(1, "a".to_string()), (2, "b".to_string()), (1, "c".to_string())];
    assert_eq!(find_guid(&guids, 1), Some(&"a".to_string()));
    assert_eq!(find_guid(&guids, 2), Some(&"b".to_string()));
    assert_eq!(find_guid(&guids, 3), None);
    assert_eq!(find_guid(&Vec::new(), 1), None);
}

#[test]
fn string_comparison() {
    assert!(str_equal("", ""));
    assert!(str_equal("sdl", "sdl"));
    assert!(!str_equal("sdl", "sdk"));
    assert!(!str_equal("sdl", "sd"));
    assert!(!str_equal("sd", "sdl"));
    assert!(!str_equal("xinput", "xinpuT"));
}
