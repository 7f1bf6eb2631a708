//! The window state: cursor, blocking, low-level input and thread hooks.

use glint_overlay::backend::window::input_ll::{
    acquire, activate_route, blocking_target, deactivate_route, keyboard_ll_handled,
    keyboard_proc, mouse_proc, normalize_vk, release, should_emit_move, uninstall,
    update_route_position, LowLevelInput, WM_KEYDOWN, WM_LBUTTONDOWN, WM_MOUSEMOVE, WM_MOUSEWHEEL,
};
use glint_overlay::backend::window::thread_hooks::{
    apply_callwndproc, apply_getmessage, consume_overlay_getmessage, now_ms,
    should_install_thread_hooks, skip_exe_names, skip_thread_hooks_decision,
    watchdog_should_reinstall, CallWndProcResult, GetMessageResult, ThreadHooks,
    WM_IME_COMPOSITION, WM_IME_NOTIFY, WM_IME_REQUEST, WM_IME_STARTCOMPOSITION,
};
use glint_overlay::backend::window::{
    class_cursor_to_restore, clip_is_tighter, restore_show_count, show_until_visible,
    InputBlockData, RestorePhase, ShowPhase, WindowProcData,
};
use glint_overlay::event::{
    CursorAction, CursorEvent, CursorInput, CursorInputState, InputEvent, InputPosition, Key,
    KeyInputState, KeyboardInput, OverlayEvent, ScrollAxis, WindowEvent,
};
use glint_overlay::geometry::Rect;
use glint_overlay::hook::proc::{Msg, WM_NULL};

const WM_PAINT: u32 = 0xF;
const GAME: u32 = 0x100;
const OTHER: u32 = 0x200;

fn fake_block(show_count: i32, saved_cursor: isize, class_cursor: usize) -> InputBlockData {
    InputBlockData {
        clip_cursor: Some(Rect { left: 10, top: 10, right: 20, bottom: 20 }),
        old_ime_cx: 0,
        show_count,
        saved_cursor,
        class_cursor,
    }
}

fn fake_msg(message: u32) -> Msg {
    Msg { hwnd: 0, message, wparam: 0, lparam: 0, time: 0 }
}

/// Runs the raising of the cursor against a counter, as a window does.
fn raise(n: &mut i32) -> i32 {
    let mut phase = ShowPhase::Start;
    loop {
        if let ShowPhase::Done { saved } = phase {
            return saved;
        }
        *n += 1;
        phase = show_until_visible(phase, *n);
    }
}

/// Runs the restoring of the counter, as a window does.
fn restore(target: i32, n: &mut i32) {
    let mut phase = RestorePhase::Start;
    while let Some(show) = phase.next_call() {
        if show {
            *n += 1;
        } else {
            *n -= 1;
        }
        phase = restore_show_count(target, phase, *n);
    }
}

#[test]
fn show_until_visible_saves_count_from_hidden() {
    let mut n = -3;
    let saved = raise(&mut n);
    assert_eq!(saved, -3);
    assert!(n >= 0);
}

#[test]
fn show_until_visible_saves_count_when_shown() {
    let mut n = 2;
    assert_eq!(raise(&mut n), 2);
    assert_eq!(n, 3);
}

#[test]
fn restore_show_count_returns_to_saved_hidden() {
    let mut n = 0;
    restore(-1, &mut n);
    assert_eq!(n, -1);
}

#[test]
fn restore_show_count_already_at_target() {
    let mut n = 2;
    restore(2, &mut n);
    assert_eq!(n, 2);
}

#[test]
fn restore_show_count_raises_to_target() {
    let mut n = -4;
    restore(1, &mut n);
    assert_eq!(n, 1);
}

#[test]
fn interactive_show_cursor_false_does_not_drop_restore() {
    let mut data = fake_block(3, 0x1234, 0x5678);
    assert_eq!(data.apply_show_cursor(false), 2);
    assert_eq!(data.show_count, 2);
    assert_eq!(data.saved_cursor, 0x1234);
    assert_eq!(data.class_cursor, 0x5678);
    assert!(data.clip_cursor.is_some());
}

#[test]
fn interactive_show_cursor_true_counts_up() {
    let mut data = fake_block(-1, 0, 0);
    assert_eq!(data.apply_show_cursor(true), 0);
}

#[test]
fn interactive_set_cursor_null_does_not_drop_restore() {
    let mut data = fake_block(3, 0x1234, 0x5678);
    assert_eq!(data.apply_set_cursor(0), 0x1234);
    assert_eq!(data.saved_cursor, 0);
    assert_eq!(data.show_count, 3);
    assert_eq!(data.class_cursor, 0x5678);
    assert!(data.clip_cursor.is_some());
}

#[test]
fn clip_tighter_than_desktop_unclips() {
    let desktop = Rect { left: 0, top: 0, right: 1920, bottom: 1080 };
    let game = Rect { left: 100, top: 100, right: 500, bottom: 500 };
    assert!(clip_is_tighter(game, desktop));
    assert!(!clip_is_tighter(desktop, desktop));
}

#[test]
fn class_cursor_restore_skips_zero() {
    assert_eq!(class_cursor_to_restore(0), None);
    assert_eq!(class_cursor_to_restore(0xABC), Some(0xABC));
}

#[test]
fn click_times_are_subtracted_and_wrap() {
    let mut data = WindowProcData::new();
    assert_eq!(data.update_click_time(100), 100);
    assert_eq!(data.update_click_time(350), 250);
    assert_eq!(data.last_click_time, 350);
    data.last_click_time = i32::MAX;
    assert_eq!(data.update_click_time(i32::MIN), 1);
}

#[test]
fn keyboard_ll_handled_predicate() {
    let mut state = LowLevelInput::new();
    assert!(!keyboard_ll_handled(&state, 12345));

    state.last_keyboard_emit = Some(1000);
    assert!(keyboard_ll_handled(&state, 1000));
    assert!(keyboard_ll_handled(&state, 999));
    assert!(!keyboard_ll_handled(&state, 1001));

    state.last_keyboard_emit = Some(5);
    assert!(keyboard_ll_handled(&state, u32::MAX - 5));
    assert!(!keyboard_ll_handled(&state, 500));
}

#[test]
fn hooks_follow_the_first_and_last_session() {
    let mut state = LowLevelInput::new();
    assert!(acquire(&mut state));
    assert!(!acquire(&mut state));
    assert!(!release(&mut state));
    assert!(release(&mut state));
    assert_eq!(state.blocking_sessions, 0);
}

#[test]
fn uninstalled_hooks_are_handed_out_once() {
    let mut state = LowLevelInput::new();
    glint_overlay::backend::window::input_ll::install(&mut state, Some(11), Some(12));
    assert_eq!(uninstall(&mut state), (Some(11), Some(12)));
    assert_eq!(uninstall(&mut state), (None, None));
}

#[test]
fn route_is_only_given_up_by_its_window() {
    let mut state = LowLevelInput::new();
    activate_route(&mut state, 7, (1, 2));
    deactivate_route(&mut state, 8);
    assert_eq!(state.route_hwnd, 7);
    update_route_position(&mut state, (3, 4));
    assert_eq!(state.route_position, (3, 4));
    deactivate_route(&mut state, 7);
    assert_eq!(state.route_hwnd, 0);
}

#[test]
fn input_is_only_routed_in_our_own_foreground() {
    let mut state = LowLevelInput::new();
    assert_eq!(blocking_target(&state, Some(7), 1, 1), None);
    activate_route(&mut state, 7, (1, 2));
    assert_eq!(blocking_target(&state, Some(7), 1, 1), Some((7, (1, 2))));
    assert_eq!(blocking_target(&state, Some(9), 2, 1), None);
    assert_eq!(blocking_target(&state, None, 1, 1), None);
}

#[test]
fn sided_modifiers_become_generic_ones() {
    assert_eq!(normalize_vk(0xA0), 0x10);
    assert_eq!(normalize_vk(0xA1), 0x10);
    assert_eq!(normalize_vk(0xA2), 0x11);
    assert_eq!(normalize_vk(0xA3), 0x11);
    assert_eq!(normalize_vk(0xA4), 0x12);
    assert_eq!(normalize_vk(0xA5), 0x12);
    assert_eq!(normalize_vk(0x41), 0x41);
}

#[test]
fn moves_are_throttled() {
    let mut state = LowLevelInput::new();
    assert!(should_emit_move(&mut state, 1000));
    assert!(!should_emit_move(&mut state, 1007));
    assert!(should_emit_move(&mut state, 1008));
}

#[test]
fn routed_mouse_press_becomes_an_event() {
    let mut state = LowLevelInput::new();
    let event = mouse_proc(
        &mut state,
        0,
        WM_LBUTTONDOWN,
        0,
        Some((7, (1, 2))),
        InputPosition { x: 10, y: 20 },
        0,
    );
    assert_eq!(
        event,
        Some(OverlayEvent::Window {
            id: 7,
            event: WindowEvent::Input(InputEvent::Cursor(CursorInput {
                event: CursorEvent::Action {
                    state: CursorInputState::Pressed { double_click: false },
                    action: CursorAction::Left,
                },
                client: InputPosition { x: 9, y: 18 },
                window: InputPosition { x: 10, y: 20 },
            })),
        })
    );
}

#[test]
fn wheel_turns_carry_their_signed_delta() {
    let mut state = LowLevelInput::new();
    let event = mouse_proc(
        &mut state,
        0,
        WM_MOUSEWHEEL,
        0xFF88_0000,
        Some((7, (0, 0))),
        InputPosition { x: 0, y: 0 },
        0,
    );
    match event {
        Some(OverlayEvent::Window {
            event: WindowEvent::Input(InputEvent::Cursor(input)),
            ..
        }) => assert_eq!(input.event, CursorEvent::Scroll { axis: ScrollAxis::Y, delta: -120 }),
        other => panic!("{other:?}"),
    }
}

#[test]
fn unrouted_input_is_dropped() {
    let mut state = LowLevelInput::new();
    let nowhere = InputPosition { x: 0, y: 0 };
    assert_eq!(mouse_proc(&mut state, 0, WM_MOUSEMOVE, 0, None, nowhere, 99), None);
    assert_eq!(keyboard_proc(&mut state, 0, WM_KEYDOWN, 0x41, 0, 99, None), None);
    assert_eq!(state.last_keyboard_emit, None);
}

#[test]
fn reported_keystroke_is_handled() {
    let mut state = LowLevelInput::new();
    let event = keyboard_proc(&mut state, 0, WM_KEYDOWN, 0xA0, 0, 500, Some((7, (0, 0))));
    assert_eq!(
        event,
        Some(OverlayEvent::Window {
            id: 7,
            event: WindowEvent::Input(InputEvent::Keyboard(KeyboardInput::Key {
                key: Key { code: 0x10, extended: false },
                state: KeyInputState::Pressed,
            })),
        })
    );
    assert!(keyboard_ll_handled(&state, 500));
    assert!(!keyboard_ll_handled(&state, 501));
}

#[test]
fn getmessage_consume_keydown_is_wm_null_return_0() {
    let mut msg = fake_msg(WM_KEYDOWN);
    assert_eq!(
        consume_overlay_getmessage(0, &mut msg, true, |_| {}),
        GetMessageResult::Consumed
    );
    assert_eq!(msg.message, WM_NULL);
}

#[test]
fn getmessage_consume_lbutton_is_wm_null_return_0() {
    let mut msg = fake_msg(WM_LBUTTONDOWN);
    assert_eq!(
        consume_overlay_getmessage(0, &mut msg, true, |_| {}),
        GetMessageResult::Consumed
    );
    assert_eq!(msg.message, WM_NULL);
}

#[test]
fn getmessage_consume_emits_before_null() {
    let mut msg = fake_msg(WM_KEYDOWN);
    let mut seen = None;
    assert_eq!(
        consume_overlay_getmessage(0, &mut msg, true, |m| seen = Some(m.message)),
        GetMessageResult::Consumed
    );
    assert_eq!(seen, Some(WM_KEYDOWN));
    assert_eq!(msg.message, WM_NULL);
}

#[test]
fn getmessage_unrelated_or_inactive_calls_next() {
    assert_eq!(apply_getmessage(0, WM_PAINT, true), GetMessageResult::CallNext);
    assert_eq!(apply_getmessage(0, WM_KEYDOWN, false), GetMessageResult::CallNext);
    assert_eq!(apply_getmessage(-1, WM_KEYDOWN, true), GetMessageResult::CallNext);
}

#[test]
fn callwndproc_ime_on_game_hwnd_blocks() {
    assert_eq!(apply_callwndproc(0, GAME, GAME, WM_IME_NOTIFY), CallWndProcResult::Block);
    assert_eq!(apply_callwndproc(0, GAME, GAME, WM_IME_REQUEST), CallWndProcResult::Block);
    assert_eq!(
        apply_callwndproc(0, GAME, GAME, WM_IME_STARTCOMPOSITION),
        CallWndProcResult::Block
    );
    assert_eq!(apply_callwndproc(0, GAME, GAME, WM_IME_COMPOSITION), CallWndProcResult::Block);
}

#[test]
fn callwndproc_mouse_key_paint_pass_through() {
    assert_eq!(apply_callwndproc(0, GAME, GAME, WM_KEYDOWN), CallWndProcResult::CallNext);
    assert_eq!(apply_callwndproc(0, GAME, GAME, WM_LBUTTONDOWN), CallWndProcResult::CallNext);
    assert_eq!(apply_callwndproc(0, GAME, GAME, WM_MOUSEMOVE), CallWndProcResult::CallNext);
    assert_eq!(apply_callwndproc(0, GAME, GAME, WM_PAINT), CallWndProcResult::CallNext);
    assert_eq!(apply_callwndproc(0, OTHER, GAME, WM_IME_NOTIFY), CallWndProcResult::CallNext);
    assert_eq!(apply_callwndproc(-1, GAME, GAME, WM_IME_NOTIFY), CallWndProcResult::CallNext);
}

#[test]
fn hooks_off_when_not_interactive() {
    assert!(!should_install_thread_hooks(false, false));
    assert!(should_install_thread_hooks(true, false));
    assert!(!should_install_thread_hooks(true, true));
}

#[test]
fn watchdog_reinstalls_when_delta_over_500() {
    assert!(watchdog_should_reinstall(true, 501));
    assert!(!watchdog_should_reinstall(true, 500));
    assert!(!watchdog_should_reinstall(true, 0));
    assert!(!watchdog_should_reinstall(false, 1000));
}

#[test]
fn skip_only_env_or_documented_exe() {
    assert!(!skip_thread_hooks_decision(false, "game.exe"));
    assert!(skip_thread_hooks_decision(true, "game.exe"));
    assert!(!skip_exe_names().iter().any(|n| n.eq_ignore_ascii_case("game.exe")));
}

#[test]
fn thread_hooks_follow_their_window() {
    let mut hooks = ThreadHooks::new();
    assert!(!hooks.install(GAME, true, 5, 10));
    assert!(hooks.install(GAME, false, 5, 10));
    hooks.installed(Some(31), Some(32));
    assert_eq!(
        hooks.callwndproc_proc(0, Some((GAME, WM_IME_NOTIFY))),
        CallWndProcResult::Block
    );
    let mut msg = fake_msg(WM_KEYDOWN);
    assert_eq!(
        hooks.getmessage_proc(20, 0, Some(&mut msg), |_| {}),
        GetMessageResult::Consumed
    );
    assert_eq!(hooks.last_getmessage_tick, 20);
    assert_eq!(hooks.uninstall(), (Some(31), Some(32)));
    assert_eq!(hooks.uninstall(), (None, None));
}

#[test]
fn clock_before_the_epoch_is_zero() {
    assert_eq!(now_ms(None), 0);
    assert_eq!(now_ms(Some(1234)), 1234);
    assert_eq!(now_ms(Some(0x1_0000_0005)), 5);
}
