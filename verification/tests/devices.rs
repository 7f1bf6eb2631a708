//! Input devices: what the game reads of them while the overlay is shown.

use glint_overlay::backend::Backends;
use glint_overlay::event_sink::OverlayEventSink;
use glint_overlay::hook::combase::{
    empty_gamepad_reading, empty_raw_reading, factory_kind, iid_qwords, read_controller,
    FactoryKind, ReadingHooks, E_FAIL, QWORD_GAMEPAD, QWORD_GAMEPAD2, QWORD_RAW,
    VT_IGAMEPAD2_FROM, VT_IGAMEPAD_READING, VT_IRAW_FROM, VT_IRAW_READING,
};
use glint_overlay::hook::dinput::{
    apply_device_data, apply_device_state, apply_kb_data, apply_kb_state, attach_slot, caps_kind,
    classify, create_device, find_detour, Detour, DiDeviceKind, DiHotkey, DiObjectData,
    DirectInput, DIK_LSHIFT, DIK_RSHIFT, DIK_TAB, E_NOTIMPL, GUID_SYS_KEYBOARD, GUID_SYS_MOUSE,
};
use glint_overlay::hook::gameinput::{
    apply_reading, classify_kind, co_create_hooks, finish_reading, key_slots, keys_from_reading,
    lookup_walk, note_hotkey_kind, version_of, GiHotkey, GiKind, KeyLayout, ReadingHookSet, Slots,
    IID_V10, IID_V30, KIND_CONTROLLER, KIND_GAMEPAD, KIND_KEYBOARD, KIND_MOUSE, VK_LSHIFT,
    VK_RSHIFT, VK_SHIFT, VK_TAB,
};
use glint_overlay::hook::hid::{empty_count, empty_value, parse, HIDP_STATUS_SUCCESS};
use glint_overlay::hook::setupapi::{
    is_hid_guid, HidSets, ERROR_NO_MORE_ITEMS, GUID_DEVCLASS_HIDCLASS, GUID_DEVINTERFACE_HID,
};
use glint_overlay::hook::winmm::{
    fill_centered, num_devs, pos_ex, JoyInfoEx, AXIS_CENTER, INTERACTIVE_DEVS, JOYERR_NOERROR,
    JOY_RETURNCENTERED, JOY_RETURNPOV, JOY_RETURNX, JOY_RETURNY, JOY_RETURNZ, POV_CENTERED,
};
use glint_overlay::hook::xinput::{
    apply_get_keystroke, apply_get_state, apply_passthrough, apply_set_state, empty_hooks,
    hook_version, hooks, mask_get_state, AllHooks, Export, XInputGamepad, XInputState, ERROR_EMPTY,
    ERROR_SUCCESS, VER_13,
};
use glint_overlay::hook::{hid, setupapi, winmm};

fn kb(pressed: &[u8]) -> [u8; 256] {
    let mut buf = [0u8; 256];
    for &dik in pressed {
        buf[dik as usize] = 0x80;
    }
    buf
}

#[test]
fn unbuffered_lshift_tab_is_hotkey_and_masks_tab() {
    let mut buf = kb(&[DIK_LSHIFT, DIK_TAB]);
    let out = apply_kb_state(&mut buf, false);
    assert_eq!(out.hotkey, DiHotkey::Unbuffered);
    assert_eq!(buf[DIK_TAB as usize], 0);
    assert_eq!(buf[DIK_LSHIFT as usize], 0x80);
}

#[test]
fn unbuffered_rshift_tab_is_hotkey_and_masks_tab() {
    let mut buf = kb(&[DIK_RSHIFT, DIK_TAB]);
    let out = apply_kb_state(&mut buf, false);
    assert_eq!(out.hotkey, DiHotkey::Unbuffered);
    assert_eq!(buf[DIK_TAB as usize], 0);
    assert_eq!(buf[DIK_RSHIFT as usize], 0x80);
}

#[test]
fn unbuffered_tab_alone_is_not_hotkey() {
    let mut buf = kb(&[DIK_TAB]);
    let out = apply_kb_state(&mut buf, false);
    assert_eq!(out.hotkey, DiHotkey::Nothing);
    assert_eq!(buf[DIK_TAB as usize], 0x80);
}

#[test]
fn unbuffered_interactive_zeros_after_hotkey_scan() {
    let mut buf = kb(&[DIK_LSHIFT, DIK_TAB, 0x1E]);
    let out = apply_kb_state(&mut buf, true);
    assert_eq!(out.hotkey, DiHotkey::Unbuffered);
    assert!(buf.iter().all(|&b| b == 0));
}

#[test]
fn unbuffered_interactive_zeros_without_hotkey() {
    let mut buf = kb(&[0x1E]);
    let out = apply_kb_state(&mut buf, true);
    assert_eq!(out.hotkey, DiHotkey::Nothing);
    assert!(buf.iter().all(|&b| b == 0));
}

#[test]
fn buffered_shift_tab_is_hotkey_and_masks_tab() {
    let mut shadow = [0u8; 256];
    let mut data = [
        DiObjectData { dw_ofs: DIK_LSHIFT as u32, dw_data: 0x80 },
        DiObjectData { dw_ofs: DIK_TAB as u32, dw_data: 0x80 },
    ];
    let out = apply_kb_data(&mut shadow, &mut data, false);
    assert_eq!(out.hotkey, DiHotkey::Buffered);
    assert_eq!(data[1].dw_data, 0);
    assert_eq!(data[0].dw_data, 0x80);
}

#[test]
fn buffered_tab_with_prior_shift_is_hotkey() {
    let mut shadow = kb(&[DIK_RSHIFT]);
    let mut data = [DiObjectData { dw_ofs: DIK_TAB as u32, dw_data: 0x80 }];
    let out = apply_kb_data(&mut shadow, &mut data, false);
    assert_eq!(out.hotkey, DiHotkey::Buffered);
    assert_eq!(data[0].dw_data, 0);
}

#[test]
fn buffered_interactive_zeros() {
    let mut shadow = [0u8; 256];
    let mut data = [DiObjectData { dw_ofs: 0x1E, dw_data: 0x80 }];
    let out = apply_kb_data(&mut shadow, &mut data, true);
    assert_eq!(out.hotkey, DiHotkey::Nothing);
    assert_eq!(data[0].dw_data, 0);
}

#[test]
fn mouse_interactive_zeros_keyboard_passthrough_not_applied() {
    let mut buf = [1u8, 2, 3, 4];
    let out = apply_device_state(DiDeviceKind::Mouse, &mut buf, true);
    assert_eq!(out.hotkey, DiHotkey::Nothing);
    assert_eq!(buf, [0, 0, 0, 0]);
}

#[test]
fn joystick_passthrough_even_when_interactive() {
    let mut buf = [1u8, 2, 3, 4];
    let out = apply_device_state(DiDeviceKind::Other, &mut buf, true);
    assert_eq!(out.hotkey, DiHotkey::Nothing);
    assert_eq!(buf, [1, 2, 3, 4]);

    let mut shadow = [0u8; 256];
    let mut data = [DiObjectData { dw_ofs: 0, dw_data: 0x80 }];
    let out = apply_device_data(DiDeviceKind::Other, &mut shadow, &mut data, true);
    assert_eq!(out.hotkey, DiHotkey::Nothing);
    assert_eq!(data[0].dw_data, 0x80);
}

#[test]
fn devices_are_classified_by_guid_then_caps() {
    assert_eq!(classify(Some(GUID_SYS_KEYBOARD), || None), DiDeviceKind::Keyboard);
    assert_eq!(classify(Some(GUID_SYS_MOUSE), || None), DiDeviceKind::Mouse);
    assert_eq!(classify(None, || None), DiDeviceKind::Other);
    assert_eq!(classify(None, || Some((0, 3))), DiDeviceKind::Keyboard);
    assert_eq!(caps_kind(Some((-1, 3))), None);
    assert_eq!(caps_kind(Some((0, 2))), Some(DiDeviceKind::Mouse));
}

#[test]
fn slot_is_attached_once() {
    let mut detours = Vec::new();
    assert_eq!(attach_slot(&mut detours, 0x10, |address| Some(address + 1)), Some(0x11));
    assert_eq!(attach_slot(&mut detours, 0x10, |_| None), Some(0x11));
    assert_eq!(find_detour(&detours, 0x10), Some(0x11));
    assert_eq!(find_detour(&detours, 0x20), None);
    assert_eq!(detours, vec![Detour { address: 0x10, original: 0x11 }]);
}

#[test]
fn known_device_reaches_its_own_functions() {
    let mut input = DirectInput::new();
    assert_eq!(input.call_original_state(7, |_| 5), 0);
    assert_eq!(create_device(&input.create, Some(0x10), |_| 5), E_NOTIMPL);
    input.hook_device(
        7,
        DiDeviceKind::Mouse,
        Some(0x10),
        Some(0x20),
        |address| Some(address + 1),
        |address| Some(address + 2),
    );
    assert_eq!(input.call_original_state(7, |original| original as i32), 0x11);
    assert_eq!(input.call_original_data(7, |original| original as i32), 0x22);
    assert_eq!(input.infer_state_kind(7, 256), DiDeviceKind::Mouse);
    assert_eq!(input.infer_state_kind(8, 256), DiDeviceKind::Keyboard);
}

#[test]
fn chord_is_masked_and_told_once() {
    let mut input = DirectInput::new();
    let backends = Backends::new();
    let mut sink = OverlayEventSink::new();
    input.hook_device(7, DiDeviceKind::Keyboard, Some(1), Some(2), |_| Some(3), |_| Some(4));
    let mut buf = kb(&[DIK_LSHIFT, DIK_TAB]);
    input.after_get_state(7, 0, &mut buf, &backends, &mut sink);
    assert!(input.chord);
    assert_eq!(buf[DIK_TAB as usize], 0);
    let mut idle = kb(&[]);
    input.after_get_state(7, 0, &mut idle, &backends, &mut sink);
    assert!(!input.chord);
}

fn from_qwords(q: (u64, u64)) -> [u8; 16] {
    let mut buf = [0u8; 16];
    buf[..8].copy_from_slice(&q.0.to_le_bytes());
    buf[8..].copy_from_slice(&q.1.to_le_bytes());
    buf
}

#[test]
fn steam_iids_match_qword_pairs() {
    assert_eq!(factory_kind(Some(&from_qwords(QWORD_RAW))), Some(FactoryKind::Raw));
    assert_eq!(factory_kind(Some(&from_qwords(QWORD_GAMEPAD))), Some(FactoryKind::Gamepad));
    assert_eq!(factory_kind(Some(&from_qwords(QWORD_GAMEPAD2))), Some(FactoryKind::Gamepad2));
    assert_eq!(iid_qwords(Some(&from_qwords(QWORD_RAW))), Some(QWORD_RAW));
}

#[test]
fn confirmed_from_and_reading_slots() {
    assert_eq!(VT_IRAW_FROM, 11);
    assert_eq!(VT_IGAMEPAD2_FROM, 6);
    assert_eq!(VT_IGAMEPAD_READING, 8);
    assert_eq!(VT_IRAW_READING, 13);
    assert_eq!(8 * VT_IGAMEPAD2_FROM, 48);
    assert_eq!(8 * VT_IRAW_FROM, 88);
    assert_eq!(8 * VT_IGAMEPAD_READING, 64);
    assert_eq!(8 * VT_IRAW_READING, 104);
}

#[test]
fn interactive_readings_zero_buttons_keep_timestamp() {
    let mut buf = [1u8; 64];
    empty_gamepad_reading(&mut buf);
    assert_eq!(&buf[..8], &[1u8; 8]);
    assert!(buf[8..].iter().all(|&b| b == 0));
    let mut buttons = [1u8, 1, 1];
    let mut switches = [3u32, 4];
    empty_raw_reading(&mut buttons, 3, &mut switches, 2);
    assert_eq!(buttons, [0, 0, 0]);
    assert_eq!(switches, [0, 0]);
}

#[test]
fn unknown_iid_is_not_wrapped() {
    let g = [0u8; 16];
    assert!(factory_kind(Some(&g)).is_none());
    assert!(factory_kind(None).is_none());
}

#[test]
fn controller_without_an_original_fails() {
    assert_eq!(read_controller(&Vec::new(), true, |_| 0), (E_FAIL, false));
    assert_eq!(read_controller(&vec![5], true, |_| 0), (0, true));
    assert_eq!(read_controller(&vec![5], false, |original| original as i32), (5, false));
    let hooks = ReadingHooks::new();
    assert_eq!(hooks.lookup_from(Some(1), Some(2)), None);
}

#[test]
fn interactive_mouse_is_consumed() {
    let out = apply_reading(GiKind::Mouse, &[], true);
    assert!(out.consume);
    assert_eq!(out.hotkey, GiHotkey::Nothing);
}

#[test]
fn interactive_keyboard_is_consumed() {
    let out = apply_reading(GiKind::Keyboard, &[0x41], true);
    assert!(out.consume);
    assert_eq!(out.hotkey, GiHotkey::Nothing);
}

#[test]
fn interactive_gamepad_is_consumed() {
    let out = apply_reading(GiKind::Gamepad, &[], true);
    assert!(out.consume);
    assert_eq!(out.hotkey, GiHotkey::Nothing);
}

#[test]
fn interactive_other_passes_through() {
    let out = apply_reading(GiKind::Other, &[], true);
    assert!(!out.consume);
    assert_eq!(out.hotkey, GiHotkey::Nothing);
}

#[test]
fn not_interactive_keyboard_passes_through() {
    let out = apply_reading(GiKind::Keyboard, &[0x41], false);
    assert!(!out.consume);
    assert_eq!(out.hotkey, GiHotkey::Nothing);
}

#[test]
fn not_interactive_mouse_passes_through() {
    let out = apply_reading(GiKind::Mouse, &[], false);
    assert!(!out.consume);
}

#[test]
fn lshift_tab_is_hotkey_and_consumed() {
    let out = apply_reading(GiKind::Keyboard, &[VK_LSHIFT, VK_TAB], false);
    assert_eq!(out.hotkey, GiHotkey::Chord);
    assert!(out.consume);
}

#[test]
fn rshift_tab_is_hotkey_and_consumed() {
    let out = apply_reading(GiKind::Keyboard, &[VK_RSHIFT, VK_TAB], false);
    assert_eq!(out.hotkey, GiHotkey::Chord);
    assert!(out.consume);
}

#[test]
fn generic_shift_tab_is_hotkey_and_consumed() {
    let out = apply_reading(GiKind::Keyboard, &[VK_SHIFT, VK_TAB], false);
    assert_eq!(out.hotkey, GiHotkey::Chord);
    assert!(out.consume);
}

#[test]
fn tab_alone_is_not_hotkey() {
    let out = apply_reading(GiKind::Keyboard, &[VK_TAB], false);
    assert_eq!(out.hotkey, GiHotkey::Nothing);
    assert!(!out.consume);
}

#[test]
fn interactive_shift_tab_is_hotkey_and_consumed() {
    let out = apply_reading(GiKind::Keyboard, &[VK_LSHIFT, VK_TAB], true);
    assert_eq!(out.hotkey, GiHotkey::Chord);
    assert!(out.consume);
}

#[test]
fn classify_keyboard_mouse_gamepad_bits() {
    assert_eq!(classify_kind(KIND_KEYBOARD), GiKind::Keyboard);
    assert_eq!(classify_kind(KIND_MOUSE), GiKind::Mouse);
    assert_eq!(classify_kind(KIND_GAMEPAD), GiKind::Gamepad);
    assert_eq!(classify_kind(KIND_CONTROLLER), GiKind::Gamepad);
    assert_eq!(classify_kind(0), GiKind::Other);
    assert_eq!(classify_kind(KIND_KEYBOARD | KIND_MOUSE), GiKind::Keyboard);
}

#[test]
fn interactive_controller_kind_is_consumed() {
    let kind = classify_kind(KIND_CONTROLLER);
    let out = apply_reading(kind, &[], true);
    assert_eq!(kind, GiKind::Gamepad);
    assert!(out.consume);
}

#[test]
fn mouse_or_pad_poll_does_not_clear_shift_tab_latch() {
    let mut chord = false;
    assert!(note_hotkey_kind(GiKind::Keyboard, GiHotkey::Chord, &mut chord));
    assert!(chord);
    assert!(!note_hotkey_kind(GiKind::Mouse, GiHotkey::Nothing, &mut chord));
    assert!(!note_hotkey_kind(GiKind::Gamepad, GiHotkey::Nothing, &mut chord));
    assert!(!note_hotkey_kind(GiKind::Other, GiHotkey::Nothing, &mut chord));
    assert!(chord);
    assert!(!note_hotkey_kind(GiKind::Keyboard, GiHotkey::Chord, &mut chord));
}

#[test]
fn readings_are_walked_and_versions_known() {
    assert_eq!(key_slots(KeyLayout::V0), key_slots(KeyLayout::V0));
    assert_ne!(key_slots(KeyLayout::V0), key_slots(KeyLayout::V1));
    assert!(version_of(IID_V10).is_some());
    assert!(version_of(IID_V30).is_some());
    assert_eq!(version_of(1), None);
    let mut set = ReadingHookSet::new();
    set.attach_readings(
        Some(Slots { current: 1, next: 2, prev: 3 }),
        KeyLayout::V1,
        &|_walk, address| Some(address + 10),
    );
    assert_eq!(set.lookup_current(Some(1)), Some((11, KeyLayout::V1)));
    assert_eq!(lookup_walk(&set.next, Some(2)), Some((12, KeyLayout::V1)));
    assert_eq!(lookup_walk(&set.prev, Some(3)), Some((13, KeyLayout::V1)));
    assert!(co_create_hooks(0, Some(IID_V10), true));
    assert!(!co_create_hooks(-1, Some(IID_V10), true));
    assert!(!co_create_hooks(0, Some(1), true));
}

#[test]
fn keys_are_read_up_to_the_count() {
    assert!(keys_from_reading(0, |_| (0, vec![])).is_empty());
    let keys = keys_from_reading(2, |n| {
        assert_eq!(n, 2);
        (1, vec![9, 8])
    });
    assert_eq!(keys, vec![9]);
}

#[test]
fn finished_reading_keeps_the_chord_from_the_game() {
    let backends = Backends::new();
    let mut sink = OverlayEventSink::new();
    let mut chord = false;
    let finished = finish_reading(
        KIND_KEYBOARD,
        true,
        0,
        || vec![VK_SHIFT, VK_TAB],
        &mut chord,
        &backends,
        &mut sink,
    );
    assert!(finished.taken);
    assert!(chord);
    let passed =
        finish_reading(KIND_MOUSE, true, 0, || vec![], &mut chord, &backends, &mut sink);
    assert!(!passed.taken);
    assert_eq!(passed.answer, 0);
}

#[test]
fn each_export_keeps_its_own_original() {
    let joy = winmm::hook(Some(100), |export, module| match export {
        winmm::Export::NumDevs => Some(module + 1),
        winmm::Export::CapsA => Some(module + 2),
        winmm::Export::CapsW => None,
        winmm::Export::PosEx => Some(module + 4),
    });
    assert_eq!((joy.num_devs, joy.caps_a), (Some(101), Some(102)));
    assert_eq!((joy.caps_w, joy.pos_ex), (None, Some(104)));
    let sets = setupapi::hook(Some(100), |export, module| match export {
        setupapi::Export::ClassA => Some(module + 1),
        setupapi::Export::EnumDrvW => Some(module + 2),
        _ => None,
    });
    assert_eq!((sets.class_a, sets.enum_drv_w), (Some(101), Some(102)));
    assert_eq!((sets.class_w, sets.enum_if, sets.enum_info), (None, None, None));
    assert!(sets.any_attached());
    let parsers = hid::hook(Some(100), |export, module| match export {
        hid::Export::GetUsages => Some(module + 1),
        hid::Export::Free => Some(module + 2),
        _ => None,
    });
    assert_eq!((parsers.get_usages, parsers.free), (Some(101), Some(102)));
    assert_eq!((parsers.get_data, parsers.attrs), (None, None));
    assert!(parsers.any_attached());
}

#[test]
fn hook_without_hid_is_ok() {
    let hooks = glint_overlay::hook::hid::hook(None, |_, _| Some(1));
    assert!(!hooks.any_attached());
    assert_eq!(hooks, glint_overlay::hook::hid::Hooks::empty());
}

#[test]
fn interactive_readings_are_empty_success() {
    let mut n = 7u32;
    empty_count(Some(&mut n));
    assert_eq!(n, 0);
    let mut v = 99u32;
    empty_value(Some(&mut v));
    assert_eq!(v, 0);
    assert_eq!(HIDP_STATUS_SUCCESS, 0x0011_0000);
    assert_eq!(parse(Some(4), true, |_| (5, Some(6))), (HIDP_STATUS_SUCCESS, Some(0)));
    assert_eq!(parse(Some(4), false, |n| (5, n)), (5, Some(4)));
}

#[test]
fn hook_without_setupapi_is_ok() {
    let hooks = glint_overlay::hook::setupapi::hook(None, |_, _| Some(1));
    assert!(!hooks.any_attached());
    assert_eq!(hooks, glint_overlay::hook::setupapi::Hooks::empty());
}

#[test]
fn hid_guids_match_interface_and_class() {
    assert!(is_hid_guid(Some(GUID_DEVINTERFACE_HID)));
    assert!(is_hid_guid(Some(GUID_DEVCLASS_HIDCLASS)));
    assert!(!is_hid_guid(None));
    assert!(!is_hid_guid(Some(0)));
}

#[test]
fn interactive_hid_enum_is_no_more_items() {
    let mut sets = HidSets::new();
    sets.note_class_devs(5, Some(GUID_DEVINTERFACE_HID));
    assert!(sets.hid_enum_blocks(5, None, true));
    assert!(!sets.hid_enum_blocks(5, None, false));
    assert!(!sets.hid_enum_blocks(6, None, true));
    assert_eq!(ERROR_NO_MORE_ITEMS, 0x103);
    assert_eq!(sets.enumerate(5, None, true, || 1), (0, Some(ERROR_NO_MORE_ITEMS)));
    assert_eq!(sets.enumerate(6, None, true, || 1), (1, None));
    sets.note_class_devs(5, None);
    assert!(!sets.hid_enum_blocks(5, None, true));
    assert!(sets.hid_enum_blocks(5, Some(GUID_DEVCLASS_HIDCLASS), true));
}

#[test]
fn hook_without_winmm_is_ok() {
    let hooks = glint_overlay::hook::winmm::hook(None, |_, _| Some(1));
    assert!(!hooks.any_attached());
    assert_eq!(hooks, glint_overlay::hook::winmm::Hooks::empty());
}

#[test]
fn interactive_pos_ex_is_centered_empty_buttons() {
    let mut info = JoyInfoEx {
        size: 52,
        flags: JOY_RETURNX | JOY_RETURNY | JOY_RETURNZ | JOY_RETURNPOV | 0x80,
        x: 1,
        y: 2,
        z: 3,
        buttons: 0xF,
        button_number: 2,
        pov: 0,
        ..JoyInfoEx::default()
    };
    fill_centered(info.flags, &mut info);
    assert_eq!(info.x, AXIS_CENTER);
    assert_eq!(info.y, AXIS_CENTER);
    assert_eq!(info.z, AXIS_CENTER);
    assert_eq!(info.buttons, 0);
    assert_eq!(info.button_number, 0);
    assert_eq!(info.pov, POV_CENTERED);
}

#[test]
fn centered_flag_fills_all_axes_and_pov() {
    let mut info = JoyInfoEx { flags: JOY_RETURNCENTERED, ..JoyInfoEx::default() };
    fill_centered(info.flags, &mut info);
    assert_eq!(info.x, AXIS_CENTER);
    assert_eq!(info.r, AXIS_CENTER);
    assert_eq!(info.pov, POV_CENTERED);
    assert_eq!(info.buttons, 0);
    let once = info;
    fill_centered(info.flags, &mut info);
    assert_eq!(info, once);
}

#[test]
fn joysticks_are_there_but_idle() {
    assert_eq!(num_devs(Some(|| 2), true), INTERACTIVE_DEVS);
    assert_eq!(num_devs(Some(|| 2), false), 2);
    let info = JoyInfoEx { flags: JOY_RETURNX, x: 5, ..JoyInfoEx::default() };
    let (answer, told) = pos_ex(Some(info), true, |place| (9, place));
    assert_eq!(answer, JOYERR_NOERROR);
    assert_eq!(told.map(|info| info.x), Some(AXIS_CENTER));
    assert_eq!(pos_ex(Some(info), false, |place| (9, place)), (9, Some(info)));
}

fn pressed_state() -> XInputState {
    XInputState {
        dw_packet_number: 42,
        gamepad: XInputGamepad {
            w_buttons: 0x1001,
            b_left_trigger: 200,
            b_right_trigger: 180,
            s_thumb_lx: -12000,
            s_thumb_ly: 8000,
            s_thumb_rx: 4000,
            s_thumb_ry: -3000,
        },
    }
}

#[test]
fn interactive_zeros_buttons_triggers_thumbs_keeps_packet() {
    let mut state = pressed_state();
    mask_get_state(&mut state, true);
    assert_eq!(state.dw_packet_number, 42);
    assert_eq!(state.gamepad, XInputGamepad::default());
}

#[test]
fn not_interactive_leaves_state_unchanged() {
    let mut state = pressed_state();
    let before = state;
    mask_get_state(&mut state, false);
    assert_eq!(state, before);
}

#[test]
fn missing_xinput_11_12_is_success() {
    assert_eq!(hook_version(None, |_, _| Some(1)), empty_hooks());
}

#[test]
fn attached_exports_are_found_by_version() {
    let v13 = hook_version(Some(7), |export, module| match export {
        Export::GetState => Some(module + 1),
        _ => None,
    });
    assert_eq!(v13.get_state, Some(8));
    assert_eq!(v13.set_state, None);
    let all = AllHooks { v11: empty_hooks(), v12: empty_hooks(), v13, v14: empty_hooks() };
    assert_eq!(hooks(&all, VER_13), Some(v13));
    assert_eq!(hooks(&all, 99), None);
}

#[test]
fn pads_are_idle_while_interactive() {
    let (answer, told) =
        apply_get_state(Some(|place| (ERROR_SUCCESS, place)), Some(pressed_state()), true);
    assert_eq!(answer, ERROR_SUCCESS);
    assert_eq!(told.map(|state| state.gamepad), Some(XInputGamepad::default()));
    assert_eq!(apply_set_state(Some(|| 3), true), ERROR_SUCCESS);
    assert_eq!(apply_set_state(Some(|| 3), false), 3);
    assert_eq!(apply_get_keystroke(Some(|place| (0, place)), None, true), (ERROR_EMPTY, None));
    assert_eq!(apply_passthrough(Some(|| 3)), 3);
}

#[test]
fn keystroke_is_taken_and_forgotten_while_interactive() {
    let asked = std::cell::Cell::new(0);
    let take = |place| {
        asked.set(asked.get() + 1);
        (0, place)
    };
    assert_eq!(apply_get_keystroke(Some(take), None, true), (ERROR_EMPTY, None));
    assert_eq!(asked.get(), 1);
    assert_eq!(apply_get_keystroke(Some(take), None, false), (0, None));
    assert_eq!(asked.get(), 2);
}
