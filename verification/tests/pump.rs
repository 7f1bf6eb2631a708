//! The message pump and the detoured user functions.

use glint_overlay::backend::window::input_ll::LowLevelInput;
use glint_overlay::backend::window::thread_hooks::WM_IME_NOTIFY;
use glint_overlay::backend::window::{InputBlockData, WindowProcData};
use glint_overlay::backend::{Backends, WindowBackend};
use glint_overlay::event::{
    CursorEvent, GpuLuid, InputEvent, InputPosition, Key, KeyInputState, KeyboardInput,
    OverlayEvent, WindowEvent,
};
use glint_overlay::event_sink::OverlayEventSink;
use glint_overlay::geometry::Rect;
use glint_overlay::hook::hotkey::{emit_shift_tab, note_chord, shift_tab_events};
use glint_overlay::hook::proc::input::{
    active_hwnd_can_block, active_hwnd_input_blocked, after_get_cursor_info, any_interactive,
    blocked_raw_input, capture_gate, clip_cursor, exclusive_raw_mouse_flag_mask, filtered_devices,
    flash_gamma_gate, foreground_hwnd_input_blocked, get_async_key_state, get_clip_cursor,
    get_cursor, get_cursor_pos, get_key_state, get_keyboard_state, get_raw_input_buffer, hook,
    imm_associate_gate, is_exclusive_raw_mouse, mask_cursor_info, needed_sites, optional_sites,
    raw_query_gate, raw_register_flags_for_call, register_device_notification_gate, set_cursor,
    set_cursor_pos, show_cursor, swallowed, unregister_device_notification_gate,
    with_cursor_passthrough, CursorInfo, CursorPassthrough, RawDevice, RawReply, Site, User32Gate,
    CURSOR_SHOWING, CURSOR_SUPPRESSED, RIDEV_CAPTUREMOUSE, RIDEV_EXCLUDE, RIDEV_NOLEGACY,
    RID_HEADER, RID_INPUT, RIM_TYPEHID,
};
use glint_overlay::hook::proc::{
    apply_pump_consume, emit_cursor_event_from_message, emit_keyboard_event_from_message,
    on_message_read, parse_cursor_position, process_dispatch_message, process_peek_message,
    process_read_message, should_filter_message, to_key, MessageReading, Msg, PM_REMOVE, WM_NULL,
};

const WM_PAINT: u32 = 0xF;
const WM_KEYDOWN: u32 = 0x100;
const WM_CHAR: u32 = 0x102;
const WM_MOUSEMOVE: u32 = 0x200;
const WM_LBUTTONDOWN: u32 = 0x201;

fn fake_msg(message: u32) -> Msg {
    Msg { hwnd: 0, message, wparam: 0, lparam: 0, time: 0 }
}

fn block(show_count: i32, saved_cursor: isize) -> InputBlockData {
    InputBlockData { clip_cursor: None, old_ime_cx: 0, show_count, saved_cursor, class_cursor: 0 }
}

fn blocked(id: u32, data: InputBlockData) -> Backends {
    let mut backends = Backends::new();
    let mut window = WindowBackend::new(id, GpuLuid { low: 1, high: 0 }, (800, 600));
    let start = window.begin_block().unwrap();
    window.finish_block(start, data, &mut LowLevelInput::new());
    backends.put(id, window);
    backends
}

#[test]
fn interactive_keydown_rewrites_to_wm_null() {
    let mut msg = fake_msg(WM_KEYDOWN);
    apply_pump_consume(&mut msg, true);
    assert_eq!(msg.message, WM_NULL);
}

#[test]
fn interactive_lbuttondown_rewrites_to_wm_null() {
    let mut msg = fake_msg(WM_LBUTTONDOWN);
    apply_pump_consume(&mut msg, true);
    assert_eq!(msg.message, WM_NULL);
}

#[test]
fn interactive_paint_passes_through() {
    let mut msg = fake_msg(WM_PAINT);
    apply_pump_consume(&mut msg, true);
    assert_eq!(msg.message, WM_PAINT);
}

#[test]
fn not_interactive_keydown_passes_through() {
    let mut msg = fake_msg(WM_KEYDOWN);
    apply_pump_consume(&mut msg, false);
    assert_eq!(msg.message, WM_KEYDOWN);
}

#[test]
fn interactive_ime_notify_passes_through() {
    let mut msg = fake_msg(WM_IME_NOTIFY);
    apply_pump_consume(&mut msg, true);
    assert_eq!(msg.message, WM_IME_NOTIFY);
}

#[test]
fn pumped_messages_are_harmless() {
    let key = fake_msg(WM_KEYDOWN);
    assert!(should_filter_message(&key, Some(true)));
    assert!(!should_filter_message(&key, Some(false)));
    assert!(!should_filter_message(&key, None));
    let step = process_read_message(&key, true, Some(true));
    assert!(step.observe);
    assert_eq!(step.message, WM_NULL);
    let peeked = process_peek_message(&key, 0, true, Some(true));
    assert!(!peeked.observe);
    let removed = process_peek_message(&key, PM_REMOVE, true, Some(true));
    assert!(removed.observe);
    assert_eq!(process_dispatch_message(&key, Some(true)).message, WM_NULL);
    assert_eq!(process_dispatch_message(&key, None), key);
}

#[test]
fn cursor_positions_are_signed_halves() {
    let mut proc = WindowProcData::new();
    proc.position = (10, 20);
    let lparam = ((0xFFFEu32 << 16) | 5) as isize;
    let positions = parse_cursor_position(&proc, lparam);
    assert_eq!(
        positions,
        (InputPosition { x: -5, y: -22 }, InputPosition { x: 5, y: -2 })
    );
}

#[test]
fn cursor_message_becomes_an_event() {
    let proc = WindowProcData::new();
    let msg = Msg { lparam: 5 | (7 << 16), ..fake_msg(WM_MOUSEMOVE) };
    match emit_cursor_event_from_message(3, &proc, &msg) {
        Some(OverlayEvent::Window {
            id: 3,
            event: WindowEvent::Input(InputEvent::Cursor(input)),
        }) => {
            assert_eq!(input.event, CursorEvent::Move);
            assert_eq!(input.window, InputPosition { x: 5, y: 7 });
        }
        other => panic!("{other:?}"),
    }
}

#[test]
fn keys_are_mapped_from_their_scan_code() {
    let lparam: isize = (0x2A << 16) | (1 << 24);
    let mut asked = 0;
    let key = to_key(lparam, |scan| {
        asked = scan;
        0x10
    });
    assert_eq!(asked & 0xFF, 0x2A);
    assert_eq!(key, Some(Key { code: 0x10, extended: true }));
    assert_eq!(to_key(lparam, |_| 0), None);
}

#[test]
fn characters_and_keys_become_events() {
    let msg = Msg { wparam: 0x41, ..fake_msg(WM_CHAR) };
    assert_eq!(
        emit_keyboard_event_from_message(3, &msg, |_| 0),
        Some(OverlayEvent::Window {
            id: 3,
            event: WindowEvent::Input(InputEvent::Keyboard(KeyboardInput::Char('A'))),
        })
    );
    let surrogate = Msg { wparam: 0xD800, ..fake_msg(WM_CHAR) };
    assert_eq!(emit_keyboard_event_from_message(3, &surrogate, |_| 0), None);
    let press = Msg { lparam: 0x1E << 16, ..fake_msg(WM_KEYDOWN) };
    assert_eq!(
        emit_keyboard_event_from_message(3, &press, |_| 0x41),
        Some(OverlayEvent::Window {
            id: 3,
            event: WindowEvent::Input(InputEvent::Keyboard(KeyboardInput::Key {
                key: Key { code: 0x41, extended: false },
                state: KeyInputState::Pressed,
            })),
        })
    );
}

#[test]
fn unwatched_window_reports_nothing() {
    let proc = WindowProcData::new();
    assert!(on_message_read(3, &proc, &fake_msg(WM_MOUSEMOVE), |_| 0).is_empty());
    assert!(on_message_read(3, &proc, &fake_msg(WM_KEYDOWN), |_| 0x41).is_empty());
    let mut watched = proc;
    watched.listen_input.cursor = true;
    assert_eq!(on_message_read(3, &watched, &fake_msg(WM_MOUSEMOVE), |_| 0).len(), 1);
}

#[test]
fn reading_is_restored() {
    let mut state = MessageReading::new();
    let last = state.enter();
    assert!(state.message_reading());
    let nested = state.enter();
    state.leave(nested);
    assert!(state.message_reading());
    state.leave(last);
    assert!(!state.message_reading());
}

#[test]
fn get_cursor_info_does_not_leak_overlay_showing() {
    let data = block(-1, 0x11);
    let mut info = CursorInfo {
        flags: CURSOR_SHOWING,
        cursor: 0x99,
        position: InputPosition { x: 50, y: 60 },
    };
    mask_cursor_info(&mut info, &data);
    assert_eq!(info.flags, 0);
    assert_eq!(info.cursor, 0x11);
    assert_eq!(info.position, InputPosition { x: 0, y: 0 });
}

#[test]
fn overlay_owned_set_cursor_passthrough_keeps_saved() {
    let mut data = block(3, 0x1234);
    let mut state = CursorPassthrough { on: false };
    with_cursor_passthrough(&mut state, |inside| {
        if !inside.cursor_passthrough() {
            data.apply_set_cursor(0x99);
        }
    });
    assert_eq!(data.saved_cursor, 0x1234);
    assert_eq!(data.show_count, 3);
    assert!(!state.cursor_passthrough());
}

#[test]
fn interactive_set_capture_on_foreign_hwnd_does_not_apply() {
    assert_eq!(capture_gate(false, true), User32Gate::Swallow);
}

#[test]
fn overlay_owned_capture_passthrough_hits_original() {
    assert_eq!(capture_gate(true, true), User32Gate::Original);
}

#[test]
fn capture_not_interactive_hits_original() {
    assert_eq!(capture_gate(false, false), User32Gate::Original);
}

#[test]
fn interactive_flash_gamma_swallowed() {
    assert_eq!(flash_gamma_gate(true), User32Gate::Swallow);
}

#[test]
fn flash_gamma_not_interactive_hits_original() {
    assert_eq!(flash_gamma_gate(false), User32Gate::Original);
}

#[test]
fn register_device_notification_prefers_original() {
    assert_eq!(register_device_notification_gate(true), User32Gate::Original);
    assert_eq!(register_device_notification_gate(false), User32Gate::Original);
}

#[test]
fn interactive_unregister_device_notification_is_noop() {
    assert_eq!(unregister_device_notification_gate(true), User32Gate::Swallow);
    assert_eq!(unregister_device_notification_gate(false), User32Gate::Original);
}

#[test]
fn interactive_exclusive_raw_mouse_register_is_stripped() {
    let flags = RIDEV_NOLEGACY | RIDEV_CAPTUREMOUSE | RIDEV_EXCLUDE;
    assert_eq!(
        raw_register_flags_for_call(1, 2, flags, true, false),
        flags & !exclusive_raw_mouse_flag_mask()
    );
}

#[test]
fn exclusive_raw_mouse_not_interactive_hits_original() {
    let flags = RIDEV_NOLEGACY | RIDEV_CAPTUREMOUSE;
    assert_eq!(raw_register_flags_for_call(1, 2, flags, false, false), flags);
}

#[test]
fn non_exclusive_raw_mouse_interactive_hits_original() {
    assert_eq!(raw_register_flags_for_call(1, 2, 0, true, false), 0);
}

#[test]
fn only_exclusive_mice_are_filtered() {
    assert!(is_exclusive_raw_mouse(1, 2, RIDEV_EXCLUDE));
    assert!(!is_exclusive_raw_mouse(1, 6, RIDEV_EXCLUDE));
    let mouse = RawDevice { usage_page: 1, usage: 2, flags: RIDEV_NOLEGACY | 0x100, target: 9 };
    let keyboard = RawDevice { usage_page: 1, usage: 6, flags: RIDEV_NOLEGACY, target: 9 };
    let devices = vec![mouse, keyboard];
    assert_eq!(
        filtered_devices(&devices, true, true, false),
        Some(vec![RawDevice { flags: 0x100, ..mouse }, keyboard])
    );
    assert_eq!(filtered_devices(&devices, true, true, true), None);
    assert_eq!(filtered_devices(&devices, true, false, false), None);
    assert_eq!(filtered_devices(&devices, false, true, false), None);
    assert_eq!(filtered_devices(&Vec::new(), true, true, false), None);
}

#[test]
fn raw_query_apis_prefer_original() {
    assert_eq!(raw_query_gate(true), User32Gate::Original);
    assert_eq!(raw_query_gate(false), User32Gate::Original);
}

#[test]
fn interactive_imm_associate_does_not_apply() {
    assert_eq!(imm_associate_gate(false, true), User32Gate::Swallow);
}

#[test]
fn overlay_owned_imm_passthrough_hits_original() {
    assert_eq!(imm_associate_gate(true, true), User32Gate::Original);
}

#[test]
fn imm_not_interactive_hits_original() {
    assert_eq!(imm_associate_gate(false, false), User32Gate::Original);
}

#[test]
fn get_cursor_info_keeps_suppressed_flag() {
    let data = block(1, 0x22);
    let mut info = CursorInfo {
        flags: CURSOR_SUPPRESSED,
        cursor: 0x99,
        position: InputPosition { x: 1, y: 2 },
    };
    mask_cursor_info(&mut info, &data);
    assert_eq!(info.flags, CURSOR_SUPPRESSED);
    assert_eq!(info.cursor, 0x22);
}

#[test]
fn blocked_window_keeps_its_cursor_to_itself() {
    let mut backends = blocked(7, block(-1, 0x22));
    assert!(any_interactive(&backends));
    assert!(foreground_hwnd_input_blocked(&backends, 7));
    assert!(!foreground_hwnd_input_blocked(&backends, 0));
    assert!(!foreground_hwnd_input_blocked(&backends, 8));
    assert!(active_hwnd_input_blocked(&backends, 7, false));
    assert!(!active_hwnd_input_blocked(&backends, 7, true));
    assert_eq!(active_hwnd_can_block(0, false), None);

    let rect = Rect { left: 1, top: 2, right: 3, bottom: 4 };
    assert_eq!(clip_cursor(&mut backends, 7, false, Some(rect), || 5), 1);
    assert_eq!(get_clip_cursor(&backends, 7, false, || (5, None)), (1, Some(rect)));
    assert_eq!(get_clip_cursor(&backends, 8, false, || (5, None)), (5, None));
    assert_eq!(set_cursor_pos(&backends, 7, || 5), 1);
    assert_eq!(set_cursor_pos(&backends, 8, || 5), 5);
    let there = InputPosition { x: 9, y: 9 };
    assert_eq!(
        get_cursor_pos(&backends, 7, Some(there), |place| (5, place)),
        (1, Some(InputPosition { x: 0, y: 0 }))
    );
    assert_eq!(get_cursor_pos(&backends, 8, Some(there), |place| (5, place)), (5, Some(there)));
    assert_eq!(show_cursor(&mut backends, false, true, || 40), 0);
    assert_eq!(show_cursor(&mut backends, true, true, || 40), 40);
    assert_eq!(set_cursor(&mut backends, false, 0x33, || 40), 0x22);
    assert_eq!(get_cursor(&backends, false, || 40), 0x33);
    assert_eq!(get_cursor(&backends, true, || 40), 40);
    let told = CursorInfo { flags: 0, cursor: 1, position: there };
    assert_eq!(
        after_get_cursor_info(&backends, Some(told)),
        Some(CursorInfo {
            flags: CURSOR_SHOWING,
            cursor: 0x33,
            position: InputPosition { x: 0, y: 0 },
        })
    );
}

#[test]
fn blocked_window_reports_no_keys() {
    let backends = blocked(7, block(0, 0));
    assert_eq!(get_async_key_state(&backends, 7, || -1), 0);
    assert_eq!(get_async_key_state(&backends, 8, || -1), -1);
    assert_eq!(get_key_state(&backends, 7, false, || -1), 0);
    assert_eq!(get_key_state(&backends, 7, true, || -1), -1);
    assert_eq!(get_raw_input_buffer(&backends, 7, || (3, 4)), (0, 0));
    assert_eq!(get_raw_input_buffer(&backends, 8, || (3, 4)), (3, 4));
    assert_eq!(get_keyboard_state(&backends, 7, false, || (5, [1; 256])), (1, [0; 256]));
    assert_eq!(get_keyboard_state(&backends, 7, true, || (5, [1; 256])), (5, [1; 256]));
}

#[test]
fn raw_input_is_answered_as_an_unknown_device() {
    assert_eq!(
        blocked_raw_input(RID_HEADER, 24, 48, true, false),
        RawReply { returned: 0, size: Some(24), header: None }
    );
    assert_eq!(
        blocked_raw_input(RID_INPUT, 24, 48, true, true),
        RawReply { returned: 48, size: Some(48), header: Some((RIM_TYPEHID, 48)) }
    );
    assert_eq!(
        blocked_raw_input(0, 24, 48, false, true),
        RawReply { returned: 0, size: None, header: None }
    );
}

#[test]
fn swallowed_call_is_not_made() {
    assert_eq!(swallowed(User32Gate::Swallow, 1, || panic!("called")), 1);
    assert_eq!(swallowed(User32Gate::Original, 1, || 9), 9);
}

#[test]
fn needed_detours_are_all_or_nothing() {
    let mut latched = None;
    assert_eq!(
        hook(&mut latched, |site| if site == Site::SetCursorPos { Err(4) } else { Ok(1) }),
        Err(4)
    );
    assert!(latched.is_none());
    assert_eq!(
        hook(&mut latched, |site| if site == Site::ShowCursor { Err(4) } else { Ok(1) }),
        Ok(())
    );
    let made = latched.as_ref().unwrap();
    assert_eq!(made.needed.len(), needed_sites().len());
    assert_eq!(made.optional.len(), optional_sites().len());
    assert_eq!(made.optional[0], None);
    assert_eq!(made.optional[1], Some(1));
    assert_eq!(hook(&mut latched, |_| Err(4)), Ok(()));
}

#[test]
fn held_chord_is_told_once() {
    let mut sink = OverlayEventSink::new();
    let shell = sink.add();
    sink.bind_layer(shell, 0);
    let mut backends = Backends::new();
    let nowhere = emit_shift_tab(&backends, &mut sink);
    assert!(nowhere.iter().all(|d| matches!(d.event, OverlayEvent::Window { id: 0, .. })));
    assert!(!nowhere.is_empty());
    backends.put(7, WindowBackend::new(7, GpuLuid { low: 1, high: 0 }, (8, 8)));
    let mut was_held = false;
    assert!(!note_chord(&mut was_held, true, &backends, &mut sink).is_empty());
    assert!(note_chord(&mut was_held, true, &backends, &mut sink).is_empty());
    assert!(note_chord(&mut was_held, false, &backends, &mut sink).is_empty());
    assert!(!was_held);
    assert!(shift_tab_events(7).len() > 1);
}
