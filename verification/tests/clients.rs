//! Clients, their layers, and what they are told.

use glint_overlay::clients::{should_cleanup_backends, ClientId, ClientRegistry, SessionCounter};
use glint_overlay::event::{
    CursorAction, CursorEvent, CursorInput, CursorInputState, InputEvent, InputPosition, Key,
    KeyInputState, KeyboardInput, OverlayEvent, WindowEvent,
};
use glint_overlay::event_sink::{Delivery, OverlayEventSink};

fn key_event(hwnd: u32, vk: u8, pressed: bool) -> OverlayEvent {
    OverlayEvent::Window {
        id: hwnd,
        event: WindowEvent::Input(InputEvent::Keyboard(KeyboardInput::Key {
            key: Key::new(vk, false).expect("vk"),
            state: if pressed { KeyInputState::Pressed } else { KeyInputState::Released },
        })),
    }
}

fn cursor_event(hwnd: u32, x: i32, y: i32, event: CursorEvent) -> OverlayEvent {
    OverlayEvent::Window {
        id: hwnd,
        event: WindowEvent::Input(InputEvent::Cursor(CursorInput {
            event,
            client: InputPosition { x, y },
            window: InputPosition { x, y },
        })),
    }
}

fn press() -> CursorEvent {
    CursorEvent::Action {
        state: CursorInputState::Pressed { double_click: false },
        action: CursorAction::Left,
    }
}

fn let_go() -> CursorEvent {
    CursorEvent::Action { state: CursorInputState::Released, action: CursorAction::Left }
}

fn count(out: &[Delivery], client: u64) -> usize {
    out.iter().filter(|d| d.client == client).count()
}

#[test]
fn shift_tab_reaches_cef_layer_when_parked_without_rects() {
    let mut sink = OverlayEventSink::new();
    let id = sink.add();
    sink.bind_layer(id, 1);

    let mut got = count(&sink.emit(key_event(42, 0x10, true)), id);
    got += count(&sink.emit(key_event(42, 0x09, true)), id);

    assert_eq!(got, 2, "Shift and Shift+Tab must reach the CEF owner while parked");

    sink.remove(id);
    assert!(!sink.connected());
}

#[test]
fn shift_tab_prefers_electron_layer0_over_cef() {
    let mut sink = OverlayEventSink::new();
    let shell = sink.add();
    let cef = sink.add();
    sink.bind_layer(shell, 0);
    sink.bind_layer(cef, 1);

    let mut out = sink.emit(key_event(7, 0x10, true));
    out.extend(sink.emit(key_event(7, 0x09, true)));

    assert!(count(&out, shell) >= 1, "Electron shell must receive Shift+Tab");
    assert_eq!(
        count(&out, cef),
        1,
        "CEF gets Shift only; Tab must not follow layer 1 when layer 0 owns the hotkey"
    );

    sink.remove(shell);
    sink.remove(cef);
}

#[test]
fn cursor_goes_to_the_topmost_layer_under_it() {
    let mut sink = OverlayEventSink::new();
    let low = sink.add();
    let high = sink.add();
    sink.bind_layer(low, 1);
    sink.bind_layer(high, 2);
    sink.set_layer_rects(7, vec![(1, 0, 0, 100, 100), (2, 50, 50, 100, 100)]);
    assert_eq!(sink.hit_test(7, InputPosition { x: 60, y: 60 }), Some(2));
    assert_eq!(sink.hit_test(7, InputPosition { x: 10, y: 10 }), Some(1));
    assert_eq!(sink.hit_test(7, InputPosition { x: 200, y: 200 }), None);
    assert_eq!(sink.hit_test(8, InputPosition { x: 10, y: 10 }), None);
    let out = sink.emit(cursor_event(7, 60, 60, CursorEvent::Move));
    assert_eq!(out.len(), 1);
    assert_eq!(out[0].client, high);
}

#[test]
fn held_left_button_keeps_the_layer() {
    let mut sink = OverlayEventSink::new();
    let low = sink.add();
    let high = sink.add();
    sink.bind_layer(low, 1);
    sink.bind_layer(high, 2);
    sink.set_layer_rects(7, vec![(1, 0, 0, 50, 50), (2, 50, 50, 50, 50)]);
    assert_eq!(count(&sink.emit(cursor_event(7, 10, 10, press())), low), 1);
    let dragged = sink.emit(cursor_event(7, 60, 60, CursorEvent::Move));
    assert_eq!((count(&dragged, low), count(&dragged, high)), (1, 0));
    assert_eq!(count(&sink.emit(cursor_event(7, 60, 60, let_go())), low), 1);
    let free = sink.emit(cursor_event(7, 60, 60, CursorEvent::Move));
    assert_eq!((count(&free, low), count(&free, high)), (0, 1));
}

#[test]
fn unowned_input_is_dropped() {
    let mut sink = OverlayEventSink::new();
    sink.add();
    sink.set_layer_rects(7, vec![(1, 0, 0, 50, 50)]);
    assert!(sink.emit(cursor_event(7, 10, 10, press())).is_empty());
}

#[test]
fn first_binder_keeps_a_layer() {
    let mut sink = OverlayEventSink::new();
    let first = sink.add();
    let second = sink.add();
    sink.bind_layer(first, 3);
    sink.bind_layer(second, 3);
    assert_eq!(sink.owner_of_layer(3), Some(first));
    assert_eq!(sink.unbind_client_layers(first), vec![3]);
    assert_eq!(sink.owner_of_layer(3), None);
}

#[test]
fn window_events_reach_everybody() {
    let mut sink = OverlayEventSink::new();
    let a = sink.add();
    let b = sink.add();
    assert_ne!(a, b);
    let event = OverlayEvent::Window { id: 1, event: WindowEvent::Destroyed };
    let out = sink.emit(event);
    assert_eq!((count(&out, a), count(&out, b)), (1, 1));
    assert_eq!(sink.emit_to(b, event), vec![Delivery { client: b, event }]);
    sink.remove(a);
    assert_eq!(sink.broadcast(event), vec![Delivery { client: b, event }]);
    assert!(sink.emit_to(a, event).is_empty());
}

#[test]
fn key_zero_is_no_key() {
    assert_eq!(Key::new(0, false), None);
    assert_eq!(Key::new(9, true), Some(Key { code: 9, extended: true }));
}

#[test]
fn two_clients_both_receive_broadcast() {
    let mut reg = ClientRegistry::new();
    let id_a = reg.register();
    let id_b = reg.register();
    let event = OverlayEvent::Window { id: 1, event: WindowEvent::Destroyed };
    let mut out = reg.broadcast(event);
    assert_eq!(count(&out, id_a.raw()), 1);
    assert_eq!(count(&out, id_b.raw()), 1);
    reg.unregister(id_a);
    out.extend(reg.broadcast(event));
    assert_eq!(count(&out, id_a.raw()), 1);
    assert_eq!(count(&out, id_b.raw()), 2);
}

#[test]
fn empty_registry_is_disconnected() {
    let reg = ClientRegistry::new();
    assert!(!reg.has_clients());
}

#[test]
fn cleanup_only_when_last_session_leaves() {
    let mut sessions = SessionCounter::new();
    sessions.enter();
    sessions.enter();
    assert!(!should_cleanup_backends(sessions.leave()));
    assert!(should_cleanup_backends(sessions.leave()));
}

#[test]
fn topmost_layer_owner_wins() {
    let mut reg = ClientRegistry::new();
    let a = reg.register();
    let b = reg.register();
    reg.bind_layer(a, 0);
    reg.bind_layer(b, 1);
    assert_eq!(reg.owner_of_layer(1), Some(b));
    reg.unbind_client_layers(b);
    assert_eq!(reg.owner_of_layer(1), None);
    assert_eq!(reg.owner_of_layer(0), Some(a));
}

#[test]
fn client_id_keeps_its_number() {
    assert_eq!(ClientId::from_raw(5).raw(), 5);
    assert_eq!(ClientId::from_raw(5), ClientId::from_raw(5));
}

#[test]
fn registered_client_gets_its_own_events() {
    let mut reg = ClientRegistry::new();
    let a = reg.register();
    reg.register();
    let event = OverlayEvent::Window { id: 1, event: WindowEvent::InputBlockingEnded };
    assert_eq!(reg.emit_to(a, event), vec![Delivery { client: a.raw(), event }]);
    assert!(reg.has_clients());
}
