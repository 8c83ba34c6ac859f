//! The two queries offered to the consumer: the list of connected
//! controllers and the state of one controller, both assembled from what the
//! manager holds and from what the caller just read from the hardware.

use vstd::prelude::*;
use vstd::string::StrSliceExecFns;
use crate::guid::{guid_field, parse_product_id, parse_vendor_id};
use crate::managers::{
    after_event, after_probe, is_table_copy, slot_transitions, ControllerEvent, ControllerManager,
};
use crate::models::{AxisValue, ControllerDataView, GamepadInfo, GamepadInfoView, GamepadState};
use crate::xinput::{
    reading_diagnostics, reading_snapshot, recorded, Diagnostic, XInputReading, XINPUT_SLOTS,
};

verus! {

/// Backend tag of the fixed-slot backend.
pub open spec fn xinput_tag() -> Seq<char> {
    "xinput"@
}

/// Backend tag of the event-driven backend.
pub open spec fn sdl_tag() -> Seq<char> {
    "sdl"@
}

/// Display name of a slot of the fixed-slot backend.
pub open spec fn xinput_name(slot: int) -> Seq<char> {
    if slot == 0 {
        "Xbox Controller 1"@
    } else if slot == 1 {
        "Xbox Controller 2"@
    } else if slot == 2 {
        "Xbox Controller 3"@
    } else {
        "Xbox Controller 4"@
    }
}

/// List entry of a connected slot of the fixed-slot backend.
pub open spec fn xinput_info(slot: int) -> GamepadInfoView {
    GamepadInfoView {
        id: slot as usize,
        name: xinput_name(slot),
        controller_type: xinput_tag(),
        vendor_id: None,
        product_id: None,
    }
}

/// List entries of the slots below `upto` that answered, in slot order.
pub open spec fn xinput_infos(answers: Seq<bool>, upto: int) -> Seq<GamepadInfoView>
    decreases upto,
{
    if upto <= 0 {
        Seq::empty()
    } else if answers[upto - 1] {
        xinput_infos(answers, upto - 1).push(xinput_info(upto - 1))
    } else {
        xinput_infos(answers, upto - 1)
    }
}

/// The GUID recorded for an instance id at or after position `from` of a
/// GUID list: that of the first entry with this id.
pub open spec fn guid_from(guids: Seq<(u32, String)>, id: u32, from: int) -> Option<Seq<char>>
    decreases guids.len() - from,
{
    if from < 0 || from >= guids.len() {
        None
    } else if guids[from].0 == id {
        Some(guids[from].1@)
    } else {
        guid_from(guids, id, from + 1)
    }
}

/// The GUID recorded for an instance id: that of the first entry with this
/// id, `None` if there is none.
pub open spec fn guid_of(guids: Seq<(u32, String)>, id: u32) -> Option<Seq<char>> {
    guid_from(guids, id, 0)
}

/// List entry of a device of the event-driven backend. The identifiers are
/// read from the GUID where there is one and its windows hold hexadecimal
/// digits.
pub open spec fn sdl_info(id: u32, name: Seq<char>, guid: Option<Seq<char>>) -> GamepadInfoView {
    GamepadInfoView {
        id: id as usize,
        name,
        controller_type: sdl_tag(),
        vendor_id: match guid {
            Some(guid) => guid_field(guid, 8),
            None => None,
        },
        product_id: match guid {
            Some(guid) => guid_field(guid, 12),
            None => None,
        },
    }
}

/// List entries of a table copy, one per device, in the order of the copy.
pub open spec fn sdl_infos(
    states: Seq<(u32, String, Vec<bool>, Vec<AxisValue>)>,
    guids: Seq<(u32, String)>,
) -> Seq<GamepadInfoView> {
    Seq::new(
        states.len(),
        |i: int| sdl_info(states[i].0, states[i].1@, guid_of(guids, states[i].0)),
    )
}

/// The mathematical content of a list of entries.
pub open spec fn info_views(infos: Seq<GamepadInfo>) -> Seq<GamepadInfoView> {
    Seq::new(infos.len(), |i: int| infos[i]@)
}

/// The two backends.
#[derive(Clone, Copy, Debug, PartialEq, Eq, Structural)]
pub enum BackendKind {
    /// The fixed-slot, poll-only backend, tagged `"xinput"`.
    XInput,
    /// The event-driven backend, tagged `"sdl"`.
    Sdl,
}

/// The backend that a tag names: `"xinput"` or `"sdl"`, nothing else.
pub open spec fn backend_of(tag: Seq<char>) -> Option<BackendKind> {
    if tag == xinput_tag() {
        Some(BackendKind::XInput)
    } else if tag == sdl_tag() {
        Some(BackendKind::Sdl)
    } else {
        None
    }
}

/// Whether two strings hold the same characters.
pub fn str_equal(left: &str, right: &str) -> (equal: bool)
    ensures
        equal == (left@ == right@),
{
    let n: usize = left.unicode_len();
    if n != right.unicode_len() {
        return false;
    }
    let mut i: usize = 0;
    while i < n
        invariant
            i <= n,
            n == left@.len(),
            n == right@.len(),
            forall|k: int| 0 <= k < i ==> left@[k] == right@[k],
        decreases n - i,
    {
        if left.get_char(i) != right.get_char(i) {
            return false;
        }
        i += 1;
    }
    assert(left@ =~= right@);
    true
}

/// The backend that a tag names.
pub fn backend_kind(controller_type: &str) -> (kind: Option<BackendKind>)
    ensures
        kind == backend_of(controller_type@),
{
    if str_equal(controller_type, "xinput") {
        Some(BackendKind::XInput)
    } else if str_equal(controller_type, "sdl") {
        Some(BackendKind::Sdl)
    } else {
        None
    }
}

/// The two tags differ, so a tag names at most one backend.
pub proof fn lemma_tags_differ()
    ensures
        xinput_tag() != sdl_tag(),
        backend_of(xinput_tag()) == Some(BackendKind::XInput),
        backend_of(sdl_tag()) == Some(BackendKind::Sdl),
{
    reveal_strlit("xinput");
    reveal_strlit("sdl");
    assert(xinput_tag().len() == 6);
    assert(sdl_tag().len() == 3);
}

/// The GUID recorded for an instance id in a list of `(instance id, GUID)`
/// pairs: that of the first entry with this id.
pub fn find_guid(guids: &Vec<(u32, String)>, id: u32) -> (guid: Option<&String>)
    ensures
        guid is Some <==> guid_of(guids@, id) is Some,
        guid is Some ==> guid.unwrap()@ == guid_of(guids@, id).unwrap(),
{
    let mut i: usize = 0;
    while i < guids.len()
        invariant
            i <= guids.len(),
            guid_of(guids@, id) == guid_from(guids@, id, i as int),
        decreases guids.len() - i,
    {
        if guids[i].0 == id {
            return Some(&guids[i].1);
        }
        i += 1;
    }
    None
}

/// List entry of a slot of the fixed-slot backend; `None` outside the four
/// slots.
pub fn xinput_gamepad_info(slot: usize) -> (info: Option<GamepadInfo>)
    ensures
        info is Some <==> slot < XINPUT_SLOTS,
        info is Some ==> info.unwrap()@ == xinput_info(slot as int),
{
    broadcast use vstd::string::group_string_axioms;

    let name = match slot {
        0 => "Xbox Controller 1",
        1 => "Xbox Controller 2",
        2 => "Xbox Controller 3",
        3 => "Xbox Controller 4",
        _ => {
            return None;
        },
    };
    Some(
        GamepadInfo {
            id: slot,
            name: name.to_string(),
            controller_type: "xinput".to_string(),
            vendor_id: None,
            product_id: None,
        },
    )
}

/// List entry of a device of the event-driven backend.
pub fn sdl_gamepad_info(id: u32, name: &String, guid: Option<&String>) -> (info: GamepadInfo)
    ensures
        info@ == sdl_info(
            id,
            name@,
            match guid {
                Some(guid) => Some(guid@),
                None => None,
            },
        ),
{
    broadcast use vstd::string::group_string_axioms;

    let (vendor_id, product_id) = match guid {
        Some(guid) => (parse_vendor_id(guid.as_str()), parse_product_id(guid.as_str())),
        None => (None, None),
    };
    GamepadInfo {
        id: id as usize,
        name: name.clone(),
        controller_type: "sdl".to_string(),
        vendor_id,
        product_id,
    }
}

/// The list of a full query: the slots of the fixed-slot backend that
/// answered, in slot order, then one entry per device of the table copy.
/// Without access to the fixed-slot backend (`answers` is `None`) the first
/// part is empty.
pub open spec fn listing(
    answers: Option<[bool; 4]>,
    states: Seq<(u32, String, Vec<bool>, Vec<AxisValue>)>,
    guids: Seq<(u32, String)>,
) -> Seq<GamepadInfoView> {
    (match answers {
        Some(answers) => xinput_infos(answers@, XINPUT_SLOTS as int),
        None => Seq::empty(),
    }) + sdl_infos(states, guids)
}

/// The list of connected controllers.
///
/// `answers` says which of the four slots of the fixed-slot backend answered
/// a probe just now, or is `None` when that backend could not be reached at
/// all. `guids` holds the GUID of each attached device of the event-driven
/// backend under its instance id, as far as the caller could read it.
///
/// The list holds one entry for each slot that answered, in slot order, and
/// then one entry for each device of the table, with the identifiers parsed
/// from its GUID. The slots take note of their answers; the second component
/// lists the slots that changed between connected and disconnected. The
/// device table is not changed.
pub fn get_gamepads(
    manager: &mut ControllerManager,
    answers: Option<[bool; 4]>,
    guids: &Vec<(u32, String)>,
) -> (result: (Vec<GamepadInfo>, Vec<Diagnostic>))
    ensures
        final(manager).devices() == old(manager).devices(),
        final(manager).slots() == (match answers {
            Some(answers) => after_probe(old(manager).slots(), answers@),
            None => old(manager).slots(),
        }),
        result.1@ == (match answers {
            Some(answers) => slot_transitions(
                old(manager).slots(),
                answers@,
                XINPUT_SLOTS as int,
            ),
            None => Seq::empty(),
        }),
        exists|states: Seq<(u32, String, Vec<bool>, Vec<AxisValue>)>|
            is_table_copy(old(manager).devices(), states) && #[trigger] listing(
                answers,
                states,
                guids@,
            ) == info_views(result.0@),
        forall|id: u32|
            lists_device(info_views(result.0@), id) <==> old(manager).devices().contains_key(id),
{
    let mut controllers: Vec<GamepadInfo> = Vec::new();
    let mut events: Vec<Diagnostic> = Vec::new();
    match answers {
        Some(answers) => {
            events = manager.probe_slots(&answers);
            let mut slot: usize = 0;
            while slot < XINPUT_SLOTS
                invariant
                    slot <= XINPUT_SLOTS,
                    info_views(controllers@) == xinput_infos(answers@, slot as int),
                decreases XINPUT_SLOTS - slot,
            {
                if answers[slot] {
                    match xinput_gamepad_info(slot) {
                        Some(info) => {
                            controllers.push(info);
                        },
                        None => {},
                    }
                }
                slot += 1;
                assert(info_views(controllers@) =~= xinput_infos(answers@, slot as int));
            }
        },
        None => {
            assert(info_views(controllers@) =~= Seq::<GamepadInfoView>::empty());
        },
    }
    let ghost first = info_views(controllers@);
    let states = manager.get_controller_states();
    let mut i: usize = 0;
    while i < states.len()
        invariant
            i <= states.len(),
            info_views(controllers@) == first + sdl_infos(states@, guids@).take(i as int),
        decreases states.len() - i,
    {
        let guid = find_guid(guids, states[i].0);
        let info = sdl_gamepad_info(states[i].0, &states[i].1, guid);
        assert(info@ == sdl_infos(states@, guids@)[i as int]);
        let ghost before = info_views(controllers@);
        controllers.push(info);
        i += 1;
        assert(info_views(controllers@) =~= before.push(info@));
        assert(sdl_infos(states@, guids@).take(i as int) =~= sdl_infos(states@, guids@).take(
            i as int - 1,
        ).push(info@));
        assert(info_views(controllers@) =~= first + sdl_infos(states@, guids@).take(i as int));
    }
    assert(sdl_infos(states@, guids@).take(states.len() as int) == sdl_infos(states@, guids@));
    assert(listing(answers, states@, guids@) == info_views(controllers@));
    proof {
        assert forall|id: u32|
            lists_device(info_views(controllers@), id) <==> old(manager).devices().contains_key(
                id,
            ) by {
            lemma_listed_while_in_table(old(manager).devices(), states@, answers, guids@, id);
        }
    }
    (controllers, events)
}

/// The state of one controller.
///
/// `controller_type` names the backend: `"xinput"` or `"sdl"`. For the
/// fixed-slot backend `reading` is what slot `id` answered just now, or
/// `None` when it did not answer; the other backend does not look at it.
///
/// For `"xinput"` the result is the canonical snapshot of the reading, and
/// the slot then remembers the reading; `None` without an answer or outside
/// the four slots. For `"sdl"` it is the snapshot that the table holds for
/// the device whose instance id equals `id`, `None` if no device has that
/// id; instance ids are 32 bits wide, so an `id` beyond that range names no
/// device. Any other backend name gives `None`. The second component lists
/// what changed enough on a slot of the fixed-slot backend; it is empty in
/// every other case.
pub fn get_gamepad_state(
    manager: &mut ControllerManager,
    id: usize,
    controller_type: &str,
    reading: Option<XInputReading>,
) -> (result: (Option<GamepadState>, Vec<Diagnostic>))
    ensures
        final(manager).devices() == old(manager).devices(),
        result.0 is Some ==> result.0.unwrap()@.well_formed(),
        backend_of(controller_type@) == Some(BackendKind::XInput) ==> {
            &&& result.0 is Some <==> reading is Some && id < XINPUT_SLOTS
            &&& result.0 is Some ==> {
                &&& result.0.unwrap()@ == reading_snapshot(reading.unwrap())
                &&& result.0.unwrap()@.buttons[8] == false
                &&& result.1@ == reading_diagnostics(
                    id,
                    old(manager).slots()[id as int],
                    reading.unwrap(),
                )
                &&& final(manager).slots() == old(manager).slots().update(
                    id as int,
                    recorded(old(manager).slots()[id as int], reading.unwrap()),
                )
            }
        },
        backend_of(controller_type@) == Some(BackendKind::Sdl) ==> {
            &&& result.0 is Some <==> id <= u32::MAX && old(manager).devices().contains_key(
                id as u32,
            )
            &&& result.0 is Some ==> result.0.unwrap()@ == old(manager).devices()[id as u32].snapshot()
        },
        backend_of(controller_type@) is None ==> result.0 is None,
        !(backend_of(controller_type@) == Some(BackendKind::XInput) && result.0 is Some)
            ==> final(manager).slots() == old(manager).slots() && result.1@.len() == 0,
{
    match backend_kind(controller_type) {
        Some(BackendKind::XInput) => manager.probe_state(id, reading),
        Some(BackendKind::Sdl) => {
            if id > u32::MAX as usize {
                (None, Vec::new())
            } else {
                (manager.device_state(id as u32), Vec::new())
            }
        },
        None => (None, Vec::new()),
    }
}

/// Whether a list names a device of the event-driven backend under an
/// instance id.
pub open spec fn lists_device(list: Seq<GamepadInfoView>, id: u32) -> bool {
    exists|i: int|
        0 <= i < list.len() && (#[trigger] list[i]).controller_type == sdl_tag() && list[i].id
            == id as usize
}

/// Every entry of the first part of a list belongs to the fixed-slot
/// backend and names one of its four slots.
pub proof fn lemma_xinput_entries(answers: Seq<bool>, upto: int)
    requires
        0 <= upto <= XINPUT_SLOTS,
    ensures
        xinput_infos(answers, upto).len() <= upto,
        forall|i: int|
            0 <= i < xinput_infos(answers, upto).len() ==> {
                &&& (#[trigger] xinput_infos(answers, upto)[i]).controller_type == xinput_tag()
                &&& xinput_infos(answers, upto)[i].id < upto
                &&& answers[xinput_infos(answers, upto)[i].id as int]
                &&& xinput_infos(answers, upto)[i] == xinput_info(
                    xinput_infos(answers, upto)[i].id as int,
                )
            },
        forall|slot: int|
            0 <= slot < upto && answers[slot] ==> exists|i: int|
                0 <= i < xinput_infos(answers, upto).len() && #[trigger] xinput_infos(
                    answers,
                    upto,
                )[i] == xinput_info(slot),
    decreases upto,
{
    if upto > 0 {
        lemma_xinput_entries(answers, upto - 1);
        let shorter = xinput_infos(answers, upto - 1);
        let longer = xinput_infos(answers, upto);
        assert forall|slot: int| 0 <= slot < upto && answers[slot] implies exists|i: int|
            0 <= i < longer.len() && #[trigger] longer[i] == xinput_info(slot) by {
            if slot < upto - 1 {
                let i = choose|i: int|
                    0 <= i < shorter.len() && #[trigger] shorter[i] == xinput_info(slot);
                assert(longer[i] == xinput_info(slot));
            } else {
                assert(longer[longer.len() - 1] == xinput_info(slot));
            }
        }
    }
}

/// A list names a device of the event-driven backend exactly while the
/// table holds it, whatever the order of the table copy, the answers of the
/// fixed-slot backend and the GUIDs at hand.
pub proof fn lemma_listed_while_in_table(
    devices: Map<u32, ControllerDataView>,
    states: Seq<(u32, String, Vec<bool>, Vec<AxisValue>)>,
    answers: Option<[bool; 4]>,
    guids: Seq<(u32, String)>,
    id: u32,
)
    requires
        is_table_copy(devices, states),
    ensures
        lists_device(listing(answers, states, guids), id) <==> devices.contains_key(id),
{
    reveal_strlit("xinput");
    reveal_strlit("sdl");
    assert(xinput_tag().len() == 6);
    assert(sdl_tag().len() == 3);
    let first = match answers {
        Some(answers) => xinput_infos(answers@, XINPUT_SLOTS as int),
        None => Seq::empty(),
    };
    let second = sdl_infos(states, guids);
    let list = listing(answers, states, guids);
    assert(list == first + second);
    if let Some(answers) = answers {
        lemma_xinput_entries(answers@, XINPUT_SLOTS as int);
    }
    if devices.contains_key(id) {
        let i = choose|i: int| 0 <= i < states.len() && (#[trigger] states[i]).0 == id;
        assert(list[first.len() + i] == second[i]);
        assert(list[first.len() + i].controller_type == sdl_tag());
    }
    if lists_device(list, id) {
        let i = choose|i: int|
            0 <= i < list.len() && (#[trigger] list[i]).controller_type == sdl_tag() && list[i].id
                == id as usize;
        if i < first.len() {
            assert(list[i] == first[i]);
            assert(first[i].controller_type == xinput_tag());
        } else {
            assert(list[i] == second[i - first.len()]);
            assert(states[i - first.len()].0 == id);
        }
    }
}

/// Hot-plug: once a device was opened under an instance id, every list
/// names it as a device of the event-driven backend; once an event removed
/// it again, no list does.
pub proof fn lemma_hot_plug(
    devices: Map<u32, ControllerDataView>,
    id: u32,
    name: Seq<char>,
    listed_after_opening: Seq<(u32, String, Vec<bool>, Vec<AxisValue>)>,
    listed_after_removal: Seq<(u32, String, Vec<bool>, Vec<AxisValue>)>,
    answers: Option<[bool; 4]>,
    guids: Seq<(u32, String)>,
)
    requires
        is_table_copy(
            devices.insert(id, ControllerDataView::fresh(name)),
            listed_after_opening,
        ),
        is_table_copy(
            after_event(
                devices.insert(id, ControllerDataView::fresh(name)),
                ControllerEvent::JoyDeviceRemoved { which: id },
            ),
            listed_after_removal,
        ),
    ensures
        lists_device(listing(answers, listed_after_opening, guids), id),
        !lists_device(listing(answers, listed_after_removal, guids), id),
{
    let opened = devices.insert(id, ControllerDataView::fresh(name));
    lemma_listed_while_in_table(opened, listed_after_opening, answers, guids, id);
    lemma_listed_while_in_table(
        after_event(opened, ControllerEvent::JoyDeviceRemoved { which: id }),
        listed_after_removal,
        answers,
        guids,
        id,
    );
}

} // verus!
