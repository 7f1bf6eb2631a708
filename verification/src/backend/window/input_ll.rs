//! Low-level mouse and keyboard hooks while input is blocked.
//!
//! The hooks only observe: whatever they report, the next hook is called. They
//! report to one window, the route.

use crate::backend::window::input_event::{cursor_overlay_event, keyboard_overlay_event};
use crate::event::{
    CursorAction, CursorEvent, CursorInputState, InputPosition, Key, KeyInputState, KeyboardInput,
    OverlayEvent, ScrollAxis,
};
use vstd::prelude::*;

verus! {

/// A hook is to act on its message.
pub const HC_ACTION: i32 = 0;

/// Least time between two reported moves, in milliseconds.
pub const MOVE_THROTTLE_MS: u64 = 8;

pub const WM_KEYDOWN: u32 = 0x100;
pub const WM_KEYUP: u32 = 0x101;
pub const WM_CHAR: u32 = 0x102;
pub const WM_SYSKEYDOWN: u32 = 0x104;
pub const WM_SYSKEYUP: u32 = 0x105;
pub const WM_SYSCHAR: u32 = 0x106;
pub const WM_MOUSEMOVE: u32 = 0x200;
pub const WM_LBUTTONDOWN: u32 = 0x201;
pub const WM_LBUTTONUP: u32 = 0x202;
pub const WM_LBUTTONDBLCLK: u32 = 0x203;
pub const WM_RBUTTONDOWN: u32 = 0x204;
pub const WM_RBUTTONUP: u32 = 0x205;
pub const WM_RBUTTONDBLCLK: u32 = 0x206;
pub const WM_MBUTTONDOWN: u32 = 0x207;
pub const WM_MBUTTONUP: u32 = 0x208;
pub const WM_MBUTTONDBLCLK: u32 = 0x209;
pub const WM_MOUSEWHEEL: u32 = 0x20A;
pub const WM_XBUTTONDOWN: u32 = 0x20B;
pub const WM_XBUTTONUP: u32 = 0x20C;
pub const WM_XBUTTONDBLCLK: u32 = 0x20D;
pub const WM_MOUSEHWHEEL: u32 = 0x20E;

/// State of the low-level hooks.
#[derive(Debug, Clone, Copy)]
pub struct LowLevelInput {
    /// Window that input is routed to; 0 if there is none.
    pub route_hwnd: u32,
    /// Where the overlay surface starts in that window.
    pub route_position: (i32, i32),
    /// Windows that block input.
    pub blocking_sessions: usize,
    /// The mouse hook; 0 if there is none.
    pub mouse_hook: usize,
    /// The keyboard hook; 0 if there is none.
    pub keyboard_hook: usize,
    /// When a move was reported last.
    pub last_move_tick: u64,
    /// Time stamp of the keystroke that was reported last.
    pub last_keyboard_emit: Option<u32>,
}

impl LowLevelInput {
    /// No route, and no hooks.
    pub fn new() -> (state: LowLevelInput)
        ensures
            state == (LowLevelInput {
                route_hwnd: 0,
                route_position: (0, 0),
                blocking_sessions: 0,
                mouse_hook: 0,
                keyboard_hook: 0,
                last_move_tick: 0,
                last_keyboard_emit: None,
            }),
    {
        LowLevelInput {
            route_hwnd: 0,
            route_position: (0, 0),
            blocking_sessions: 0,
            mouse_hook: 0,
            keyboard_hook: 0,
            last_move_tick: 0,
            last_keyboard_emit: None,
        }
    }
}

/// Routes input to a window.
pub fn activate_route(state: &mut LowLevelInput, hwnd: u32, position: (i32, i32))
    ensures
        *final(state) == (LowLevelInput {
            route_hwnd: hwnd,
            route_position: position,
            ..*old(state)
        }),
{
    state.route_position = position;
    state.route_hwnd = hwnd;
}

/// Ends the route to a window, if input is routed there.
pub fn deactivate_route(state: &mut LowLevelInput, hwnd: u32)
    ensures
        *final(state) == (if old(state).route_hwnd == hwnd {
            LowLevelInput { route_hwnd: 0, ..*old(state) }
        } else {
            *old(state)
        }),
{
    if state.route_hwnd == hwnd {
        state.route_hwnd = 0;
    }
}

/// Whether a time stamp is not before another, on a clock that wraps around:
/// it is at most half a turn ahead.
pub open spec fn not_before(stamp: u32, other: u32) -> bool {
    stamp.wrapping_sub(other) < 0x8000_0000
}

/// Whether the keystroke of a message with this time stamp was reported by the
/// hook. The hook sees a keystroke before the game's message loop does.
pub fn keyboard_ll_handled(state: &LowLevelInput, msg_time: u32) -> (handled: bool)
    ensures
        handled == (state.last_keyboard_emit matches Some(stamp) && not_before(stamp, msg_time)),
{
    match state.last_keyboard_emit {
        Some(stamp) => stamp.wrapping_sub(msg_time) < 0x8000_0000,
        None => false,
    }
}

/// Moves the surface of the window that input is routed to.
pub fn update_route_position(state: &mut LowLevelInput, position: (i32, i32))
    ensures
        *final(state) == (if old(state).route_hwnd != 0 {
            LowLevelInput { route_position: position, ..*old(state) }
        } else {
            *old(state)
        }),
{
    if state.route_hwnd != 0 {
        state.route_position = position;
    }
}

impl LowLevelInput {
    /// One more window blocks input.
    pub open spec fn acquired(self) -> LowLevelInput {
        LowLevelInput { blocking_sessions: self.blocking_sessions.wrapping_add(1), ..self }
    }

    /// One window less blocks input.
    pub open spec fn released(self) -> LowLevelInput {
        LowLevelInput { blocking_sessions: self.blocking_sessions.wrapping_sub(1), ..self }
    }

    /// Whether one more window that blocks input calls for installing the hooks.
    pub open spec fn installs(self) -> bool {
        self.blocking_sessions == 0
    }

    /// Whether one window less that blocks input calls for removing the hooks.
    pub open spec fn removes(self) -> bool {
        self.blocking_sessions == 1
    }

    /// The state after a history of windows that started and stopped to block
    /// input.
    pub open spec fn through(self, history: Seq<bool>) -> LowLevelInput
        decreases history.len(),
    {
        if history.len() == 0 {
            self
        } else if history.last() {
            self.through(history.drop_last()).acquired()
        } else {
            self.through(history.drop_last()).released()
        }
    }

    /// Whether the hooks are there after such a history, if there were none
    /// before it.
    pub open spec fn hooked(self, history: Seq<bool>) -> bool
        decreases history.len(),
    {
        if history.len() == 0 {
            false
        } else {
            let before = self.through(history.drop_last());
            if history.last() {
                before.installs() || self.hooked(history.drop_last())
            } else {
                !before.removes() && self.hooked(history.drop_last())
            }
        }
    }
}

/// Counts one more window that blocks input, and tells whether the hooks are to
/// be installed: they are for the first one.
pub fn acquire(state: &mut LowLevelInput) -> (install: bool)
    ensures
        install == old(state).installs(),
        *final(state) == old(state).acquired(),
{
    let before: usize = state.blocking_sessions;
    state.blocking_sessions = before.wrapping_add(1);
    before == 0
}

/// Counts one window less that blocks input, and tells whether the hooks are to
/// be removed: they are after the last one.
pub fn release(state: &mut LowLevelInput) -> (remove: bool)
    ensures
        remove == old(state).removes(),
        *final(state) == old(state).released(),
{
    let before: usize = state.blocking_sessions;
    state.blocking_sessions = before.wrapping_sub(1);
    before == 1
}

/// Notes the hooks that could be installed; one that could not leaves its place
/// as it was.
pub fn install(state: &mut LowLevelInput, mouse: Option<usize>, keyboard: Option<usize>)
    ensures
        *final(state) == (LowLevelInput {
            mouse_hook: match mouse {
                Some(hook) => hook,
                None => old(state).mouse_hook,
            },
            keyboard_hook: match keyboard {
                Some(hook) => hook,
                None => old(state).keyboard_hook,
            },
            ..*old(state)
        }),
{
    if let Some(hook) = mouse {
        state.mouse_hook = hook;
    }
    if let Some(hook) = keyboard {
        state.keyboard_hook = hook;
    }
}

/// A hook, unless it is 0.
pub open spec fn hook_of(slot: usize) -> Option<usize> {
    if slot != 0 {
        Some(slot)
    } else {
        None
    }
}

/// Forgets the hooks and hands out those that there were, mouse before keyboard.
pub fn uninstall(state: &mut LowLevelInput) -> (hooks: (Option<usize>, Option<usize>))
    ensures
        hooks == (hook_of(old(state).mouse_hook), hook_of(old(state).keyboard_hook)),
        *final(state) == (LowLevelInput { mouse_hook: 0, keyboard_hook: 0, ..*old(state) }),
{
    let hooks = (next_hook(state.mouse_hook), next_hook(state.keyboard_hook));
    state.mouse_hook = 0;
    state.keyboard_hook = 0;
    hooks
}

/// The hook that is named when the next hook is called.
pub fn next_hook(slot: usize) -> (hook: Option<usize>)
    ensures
        hook == hook_of(slot),
{
    if slot != 0 {
        Some(slot)
    } else {
        None
    }
}

/// Where input goes: to the route, while the foreground window is the routed
/// one or belongs to this process.
pub open spec fn target(
    state: LowLevelInput,
    foreground: Option<u32>,
    foreground_pid: u32,
    own_pid: u32,
) -> Option<(u32, (i32, i32))> {
    if state.route_hwnd == 0 {
        None
    } else {
        match foreground {
            Some(window) if window == state.route_hwnd || foreground_pid == own_pid => Some(
                (state.route_hwnd, state.route_position),
            ),
            _ => None,
        }
    }
}

/// The window that input is for, with the start of its surface.
pub fn blocking_target(
    state: &LowLevelInput,
    foreground: Option<u32>,
    foreground_pid: u32,
    own_pid: u32,
) -> (routed: Option<(u32, (i32, i32))>)
    ensures
        routed == target(*state, foreground, foreground_pid, own_pid),
{
    let id: u32 = state.route_hwnd;
    if id == 0 {
        return None;
    }
    match foreground {
        None => None,
        Some(window) => if window != id && foreground_pid != own_pid {
            None
        } else {
            Some((id, state.route_position))
        },
    }
}

/// The code that stands for a modifier key of either side; the low byte of any
/// other code.
pub open spec fn normalized(vk: u32) -> u8 {
    if vk == 0xA0 || vk == 0xA1 {
        0x10
    } else if vk == 0xA2 || vk == 0xA3 {
        0x11
    } else if vk == 0xA4 || vk == 0xA5 {
        0x12
    } else {
        (vk % 256) as u8
    }
}

/// Replaces the codes of the left and right Shift, Control and Alt by the ones
/// that stand for both.
pub fn normalize_vk(vk: u32) -> (code: u8)
    ensures
        code == normalized(vk),
{
    match vk {
        0xA0 | 0xA1 => 0x10,
        0xA2 | 0xA3 => 0x11,
        0xA4 | 0xA5 => 0x12,
        _ => (vk % 256) as u8,
    }
}

/// Whether a move at `now` is due to be reported.
pub open spec fn move_is_due(state: LowLevelInput, now: u64) -> bool {
    now - state.last_move_tick >= MOVE_THROTTLE_MS
}

/// Whether a move at `now` is reported: moves that follow the last reported one
/// too closely are not. A clock that went back holds moves back until it has
/// caught up.
pub fn should_emit_move(state: &mut LowLevelInput, now: u64) -> (emit: bool)
    ensures
        emit == move_is_due(*old(state), now),
        *final(state) == (if emit {
            LowLevelInput { last_move_tick: now, ..*old(state) }
        } else {
            *old(state)
        }),
{
    if now.saturating_sub(state.last_move_tick) < MOVE_THROTTLE_MS {
        return false;
    }
    state.last_move_tick = now;
    true
}

/// The upper half of a word, as a signed number.
pub open spec fn upper_half(word: u32) -> int {
    let half = (word / 0x1_0000) as int;
    if half < 0x8000 {
        half
    } else {
        half - 0x1_0000
    }
}

fn signed_upper_half(word: u32) -> (half: i16)
    ensures
        half == upper_half(word),
{
    let half: u32 = word / 0x1_0000;
    if half < 0x8000 {
        half as i16
    } else {
        (half as i32 - 0x1_0000) as i16
    }
}

/// The button event that a mouse message is.
pub open spec fn button_event(message: u32) -> Option<CursorEvent> {
    let pressed = CursorInputState::Pressed { double_click: false };
    let released = CursorInputState::Released;
    if message == WM_LBUTTONDOWN {
        Some(CursorEvent::Action { state: pressed, action: CursorAction::Left })
    } else if message == WM_LBUTTONUP {
        Some(CursorEvent::Action { state: released, action: CursorAction::Left })
    } else if message == WM_RBUTTONDOWN {
        Some(CursorEvent::Action { state: pressed, action: CursorAction::Right })
    } else if message == WM_RBUTTONUP {
        Some(CursorEvent::Action { state: released, action: CursorAction::Right })
    } else if message == WM_MBUTTONDOWN {
        Some(CursorEvent::Action { state: pressed, action: CursorAction::Middle })
    } else if message == WM_MBUTTONUP {
        Some(CursorEvent::Action { state: released, action: CursorAction::Middle })
    } else {
        None
    }
}

/// What a mouse message reports, when a move is due or not. The upper half of
/// its data is how far a wheel was turned.
pub open spec fn mouse_event(message: u32, mouse_data: u32, move_due: bool) -> Option<CursorEvent> {
    if message == WM_MOUSEMOVE {
        if move_due {
            Some(CursorEvent::Move)
        } else {
            None
        }
    } else if message == WM_MOUSEWHEEL {
        Some(CursorEvent::Scroll { axis: ScrollAxis::Y, delta: upper_half(mouse_data) as i16 })
    } else if message == WM_MOUSEHWHEEL {
        Some(CursorEvent::Scroll { axis: ScrollAxis::X, delta: upper_half(mouse_data) as i16 })
    } else {
        button_event(message)
    }
}

fn button(action: CursorAction, pressed: bool) -> (event: CursorEvent)
    ensures
        event == (CursorEvent::Action {
            state: if pressed {
                CursorInputState::Pressed { double_click: false }
            } else {
                CursorInputState::Released
            },
            action,
        }),
{
    if pressed {
        CursorEvent::Action { state: CursorInputState::Pressed { double_click: false }, action }
    } else {
        CursorEvent::Action { state: CursorInputState::Released, action }
    }
}

/// What the mouse hook reports of a message. `routed` is the window that input
/// is for, and `window` the cursor's place in it. Whatever comes out, the next
/// hook is called.
pub fn mouse_proc(
    state: &mut LowLevelInput,
    code: i32,
    message: u32,
    mouse_data: u32,
    routed: Option<(u32, (i32, i32))>,
    window: InputPosition,
    now: u64,
) -> (event: Option<OverlayEvent>)
    ensures
        event == (match routed {
            Some((id, position)) if code == HC_ACTION => match mouse_event(
                message,
                mouse_data,
                move_is_due(*old(state), now),
            ) {
                Some(cursor) => Some(
                    crate::backend::window::input_event::cursor_event(id, position, window, cursor),
                ),
                None => None,
            },
            _ => None,
        }),
        *final(state) == (if code == HC_ACTION && routed is Some && message == WM_MOUSEMOVE
            && move_is_due(*old(state), now) {
            LowLevelInput { last_move_tick: now, ..*old(state) }
        } else {
            *old(state)
        }),
{
    if code != HC_ACTION {
        return None;
    }
    let (id, position) = match routed {
        Some(routed) => routed,
        None => {
            return None;
        },
    };
    let cursor: CursorEvent = match message {
        WM_MOUSEMOVE => {
            if !should_emit_move(state, now) {
                return None;
            }
            CursorEvent::Move
        },
        WM_LBUTTONDOWN => button(CursorAction::Left, true),
        WM_LBUTTONUP => button(CursorAction::Left, false),
        WM_RBUTTONDOWN => button(CursorAction::Right, true),
        WM_RBUTTONUP => button(CursorAction::Right, false),
        WM_MBUTTONDOWN => button(CursorAction::Middle, true),
        WM_MBUTTONUP => button(CursorAction::Middle, false),
        WM_MOUSEWHEEL => CursorEvent::Scroll {
            axis: ScrollAxis::Y,
            delta: signed_upper_half(mouse_data),
        },
        WM_MOUSEHWHEEL => CursorEvent::Scroll {
            axis: ScrollAxis::X,
            delta: signed_upper_half(mouse_data),
        },
        _ => {
            return None;
        },
    };
    Some(cursor_overlay_event(id, position, window, cursor))
}

/// Whether a message says that a key went down, or up.
pub open spec fn key_transition(message: u32) -> Option<KeyInputState> {
    if message == WM_KEYDOWN || message == WM_SYSKEYDOWN {
        Some(KeyInputState::Pressed)
    } else if message == WM_KEYUP || message == WM_SYSKEYUP {
        Some(KeyInputState::Released)
    } else {
        None
    }
}

/// What the keyboard hook reports of a message, and the key it is about: the
/// lowest bit of `flags` marks an extended key. A key without a code is not
/// reported.
pub fn keyboard_proc(
    state: &mut LowLevelInput,
    code: i32,
    message: u32,
    vk: u32,
    flags: u32,
    time: u32,
    routed: Option<(u32, (i32, i32))>,
) -> (event: Option<OverlayEvent>)
    ensures
        event == (match (routed, key_transition(message)) {
            (Some((id, _)), Some(transition)) if code == HC_ACTION && normalized(vk) != 0 => Some(
                crate::backend::window::input_event::keyboard_event(
                    id,
                    KeyboardInput::Key {
                        key: Key { code: normalized(vk), extended: flags % 2 == 1 },
                        state: transition,
                    },
                ),
            ),
            _ => None,
        }),
        *final(state) == (if event is Some {
            LowLevelInput { last_keyboard_emit: Some(time), ..*old(state) }
        } else {
            *old(state)
        }),
{
    if code != HC_ACTION {
        return None;
    }
    let id: u32 = match routed {
        Some((id, _)) => id,
        None => {
            return None;
        },
    };
    let transition = match message {
        WM_KEYDOWN | WM_SYSKEYDOWN => KeyInputState::Pressed,
        WM_KEYUP | WM_SYSKEYUP => KeyInputState::Released,
        _ => {
            return None;
        },
    };
    match Key::new(normalize_vk(vk), flags % 2 == 1) {
        Some(key) => {
            state.last_keyboard_emit = Some(time);
            Some(keyboard_overlay_event(id, KeyboardInput::Key { key, state: transition }))
        },
        None => None,
    }
}

/// However windows start and stop to block input, the hooks are there exactly
/// while one of them does. Nothing but the count changes.
pub proof fn law_hooks_follow_the_sessions(state: LowLevelInput, history: Seq<bool>)
    requires
        state.blocking_sessions == 0,
        crate::util::orderly(history),
        history.len() <= usize::MAX,
    ensures
        state.hooked(history) <==> crate::util::ongoing(history) > 0,
        state.through(history) == (LowLevelInput {
            blocking_sessions: crate::util::ongoing(history) as usize,
            ..state
        }),
        0 <= crate::util::ongoing(history) <= history.len(),
    decreases history.len(),
{
    if history.len() > 0 {
        law_hooks_follow_the_sessions(state, history.drop_last());
    }
}

/// A keystroke that was just reported counts as reported, and so do the ones
/// before it, up to half a turn of the clock; the ones after it do not.
pub proof fn law_reported_keystrokes_are_handled(stamp: u32, ahead: u32)
    requires
        0 < ahead < 0x8000_0000,
    ensures
        not_before(stamp, stamp),
        not_before(stamp, stamp.wrapping_sub(ahead)),
        !not_before(stamp, stamp.wrapping_add(ahead)),
{
}

/// Every button that goes down or up is reported as that button going down or up: the
/// left one by 0x201 and 0x202, the right one by 0x204 and 0x205, the middle one by
/// 0x207 and 0x208, none of them as a double click. The report names the window that
/// input is for, and where the cursor is in it and from where its surface starts. No
/// two of them are reported alike, and none holds back a move.
pub proof fn law_each_button_is_reported_as_itself(
    state: &mut LowLevelInput,
    message: u32,
    data: u32,
    id: u32,
    position: (i32, i32),
    window: InputPosition,
    now: u64,
    event: Option<OverlayEvent>,
)
    requires
        call_ensures(
            mouse_proc,
            (state, 0i32, message, data, Some((id, position)), window, now),
            event,
        ),
        0x201 <= message <= 0x208,
        message != 0x203,
        message != 0x206,
    ensures
        *final(state) == *old(state),
        event matches Some(
            OverlayEvent::Window {
                id: named,
                event: crate::event::WindowEvent::Input(crate::event::InputEvent::Cursor(seen)),
            },
        ) && {
            &&& named == id
            &&& seen.window == window
            &&& seen.client.x.wrapping_add(position.0) == window.x
            &&& seen.client.y.wrapping_add(position.1) == window.y
            &&& seen.event matches CursorEvent::Action { state: moved, action }
            &&& action is Left == (message <= 0x202)
            &&& action is Right == (0x204 <= message <= 0x205)
            &&& action is Middle == (0x207 <= message)
            &&& moved == (CursorInputState::Pressed { double_click: false }) <==> (message == 0x201
                || message == 0x204 || message == 0x207)
            &&& moved == CursorInputState::Released <==> (message == 0x202 || message == 0x205
                || message == 0x208)
        },
{
}

/// Two different button messages are never reported by the same event.
pub proof fn law_buttons_are_told_apart(
    state: &mut LowLevelInput,
    other: &mut LowLevelInput,
    first: u32,
    second: u32,
    data: u32,
    routed: (u32, (i32, i32)),
    window: InputPosition,
    now: u64,
    one: Option<OverlayEvent>,
    two: Option<OverlayEvent>,
)
    requires
        call_ensures(mouse_proc, (state, 0i32, first, data, Some(routed), window, now), one),
        call_ensures(mouse_proc, (other, 0i32, second, data, Some(routed), window, now), two),
        one is Some,
        two is Some,
        one == two,
        first != 0x20A && first != 0x20E,
    ensures
        first == second,
{
}

/// The wheels are reported by how far they were turned: 0x20A up and down, 0x20E from
/// side to side; the turn is the upper half of the data as a signed number.
pub proof fn law_wheels_are_reported_by_their_turn(
    state: &mut LowLevelInput,
    message: u32,
    data: u32,
    id: u32,
    position: (i32, i32),
    window: InputPosition,
    now: u64,
    event: Option<OverlayEvent>,
    turn: i16,
)
    requires
        call_ensures(
            mouse_proc,
            (state, 0i32, message, data, Some((id, position)), window, now),
            event,
        ),
        message == 0x20A || message == 0x20E,
        turn >= 0 ==> data / 0x1_0000 == turn,
        turn < 0 ==> data / 0x1_0000 == turn + 0x1_0000,
    ensures
        *final(state) == *old(state),
        event matches Some(
            OverlayEvent::Window {
                id: named,
                event: crate::event::WindowEvent::Input(crate::event::InputEvent::Cursor(seen)),
            },
        ) && {
            &&& named == id
            &&& seen.window == window
            &&& seen.client.x.wrapping_add(position.0) == window.x
            &&& seen.client.y.wrapping_add(position.1) == window.y
            &&& seen.event matches CursorEvent::Scroll { axis, delta }
            &&& axis is Y == (message == 0x20A)
            &&& axis is X == (message == 0x20E)
            &&& delta == turn
        },
{
}

/// A move, message 0x200, is reported when eight milliseconds have passed since the
/// last reported one, and then counts as the last; a move that comes earlier is not
/// reported and leaves the time as it was.
pub proof fn law_moves_are_eight_milliseconds_apart(
    state: &mut LowLevelInput,
    data: u32,
    id: u32,
    position: (i32, i32),
    window: InputPosition,
    now: u64,
    event: Option<OverlayEvent>,
)
    requires
        call_ensures(
            mouse_proc,
            (state, 0i32, 0x200u32, data, Some((id, position)), window, now),
            event,
        ),
    ensures
        event is Some <==> now >= old(state).last_move_tick + 8,
        event is Some ==> *final(state) == (LowLevelInput { last_move_tick: now, ..*old(state) }),
        event is None ==> *final(state) == *old(state),
        event is Some ==> (event matches Some(
            OverlayEvent::Window {
                id: named,
                event: crate::event::WindowEvent::Input(crate::event::InputEvent::Cursor(seen)),
            },
        ) && {
            &&& named == id
            &&& seen.event is Move
            &&& seen.window == window
            &&& seen.client.x.wrapping_add(position.0) == window.x
            &&& seen.client.y.wrapping_add(position.1) == window.y
        }),
{
}

/// The same rule without a message: a move is due eight milliseconds after the last.
pub proof fn law_move_is_due_after_eight_milliseconds(
    state: &mut LowLevelInput,
    again: &mut LowLevelInput,
    now: u64,
    later: u64,
    first: bool,
    second: bool,
)
    requires
        call_ensures(should_emit_move, (state, now), first),
        *again == *final(state),
        call_ensures(should_emit_move, (again, later), second),
        first,
    ensures
        now >= old(state).last_move_tick + 8,
        second <==> later >= now + 8,
        final(again).route_hwnd == old(state).route_hwnd,
        final(again).last_keyboard_emit == old(state).last_keyboard_emit,
{
}

/// A hook that is not to act, input without a window, and every other message report
/// nothing and change nothing.
pub proof fn law_other_mouse_messages_are_silent(
    state: &mut LowLevelInput,
    code: i32,
    message: u32,
    data: u32,
    routed: Option<(u32, (i32, i32))>,
    window: InputPosition,
    now: u64,
    event: Option<OverlayEvent>,
)
    requires
        call_ensures(mouse_proc, (state, code, message, data, routed, window, now), event),
        code != 0 || routed is None || message < 0x200 || message > 0x20E || message == 0x203
            || message == 0x206 || message == 0x209 || message == 0x20B || message == 0x20C
            || message == 0x20D,
    ensures
        event is None,
        *final(state) == *old(state),
{
}

/// A key that goes down, message 0x100 or 0x104, is reported as pressed, one that goes
/// up, 0x101 or 0x105, as released; its code is its low byte, where Shift, Control and
/// Alt of either side, 0xA0 to 0xA5, count as 0x10, 0x11 and 0x12. The lowest flag
/// marks an extended key. The time of what was reported is kept; what has code 0, and
/// what is no such message, is not reported.
pub proof fn law_keys_are_reported_as_themselves(
    state: &mut LowLevelInput,
    code: i32,
    message: u32,
    vk: u32,
    flags: u32,
    time: u32,
    routed: Option<(u32, (i32, i32))>,
    event: Option<OverlayEvent>,
)
    requires
        call_ensures(keyboard_proc, (state, code, message, vk, flags, time, routed), event),
    ensures
        event is Some <==> code == 0 && routed is Some && (message == 0x100 || message == 0x101
            || message == 0x104 || message == 0x105) && vk % 256 != 0,
        event is None ==> *final(state) == *old(state),
        event is Some ==> *final(state) == (LowLevelInput {
            last_keyboard_emit: Some(time),
            ..*old(state)
        }),
        event is Some ==> (event matches Some(
            OverlayEvent::Window {
                id,
                event: crate::event::WindowEvent::Input(
                    crate::event::InputEvent::Keyboard(KeyboardInput::Key { key, state: moved }),
                ),
            },
        ) && {
            &&& id == (routed->0).0
            &&& moved is Pressed <==> message == 0x100 || message == 0x104
            &&& moved is Released <==> message == 0x101 || message == 0x105
            &&& key.extended == (flags % 2 == 1)
            &&& vk == 0xA0 || vk == 0xA1 ==> key.code == 0x10
            &&& vk == 0xA2 || vk == 0xA3 ==> key.code == 0x11
            &&& vk == 0xA4 || vk == 0xA5 ==> key.code == 0x12
            &&& vk < 0xA0 || vk > 0xA5 ==> key.code == vk % 256
        }),
{
}

/// The codes of either side of a modifier become the code of both, and only those.
pub proof fn law_modifiers_have_no_side(vk: u32, code: u8)
    requires
        call_ensures(normalize_vk, (vk,), code),
    ensures
        0xA0 <= vk <= 0xA5 ==> code == 0x10 + (vk - 0xA0) / 2,
        !(0xA0 <= vk <= 0xA5) ==> code == vk % 256,
{
}

/// A message counts as reported by the hook when something was reported at its time
/// or up to half a turn of the clock later, and not otherwise.
pub proof fn law_earlier_keystrokes_are_handled(state: LowLevelInput, time: u32, handled: bool)
    requires
        call_ensures(keyboard_ll_handled, (&state, time), handled),
    ensures
        state.last_keyboard_emit is None ==> !handled,
        state.last_keyboard_emit matches Some(stamp) ==> {
            &&& stamp >= time ==> handled == (stamp - time < 0x8000_0000)
            &&& stamp < time ==> handled == (time - stamp > 0x8000_0000)
        },
{
}

/// Input is routed to the window that blocks it, with the start of its surface, while
/// that window or any of this process is in the foreground; never without a route.
pub proof fn law_input_goes_to_the_routed_window(
    state: LowLevelInput,
    foreground: Option<u32>,
    pid: u32,
    own: u32,
    routed: Option<(u32, (i32, i32))>,
)
    requires
        call_ensures(blocking_target, (&state, foreground, pid, own), routed),
    ensures
        routed is Some <==> state.route_hwnd != 0 && foreground is Some && (foreground == Some(
            state.route_hwnd,
        ) || pid == own),
        routed is Some ==> (routed->0).0 == state.route_hwnd && (routed->0).1
            == state.route_position,
{
}

/// A route leads to the window that it was set to until it is ended for that window;
/// ending it for another does nothing, and its surface moves only while there is a
/// route.
pub proof fn law_route_is_kept_until_it_ends(
    state: &mut LowLevelInput,
    moved: &mut LowLevelInput,
    ended: &mut LowLevelInput,
    hwnd: u32,
    other: u32,
    position: (i32, i32),
    place: (i32, i32),
)
    requires
        call_ensures(activate_route, (state, hwnd, position), ()),
        *moved == *final(state),
        call_ensures(update_route_position, (moved, place), ()),
        *ended == *final(moved),
        call_ensures(deactivate_route, (ended, other), ()),
    ensures
        final(state).route_hwnd == hwnd && final(state).route_position == position,
        final(moved).route_hwnd == hwnd,
        final(moved).route_position == (if hwnd != 0 {
            place
        } else {
            position
        }),
        final(ended).route_hwnd == (if other == hwnd {
            0
        } else {
            hwnd
        }),
        final(ended).route_position == final(moved).route_position,
        final(ended).blocking_sessions == old(state).blocking_sessions,
        final(ended).mouse_hook == old(state).mouse_hook,
        final(ended).keyboard_hook == old(state).keyboard_hook,
        final(ended).last_move_tick == old(state).last_move_tick,
        final(ended).last_keyboard_emit == old(state).last_keyboard_emit,
{
}

/// The hooks go in with the first window that blocks input and out with the last; one
/// more and one less leave the count as it was.
pub proof fn law_hooks_go_in_and_out_once(
    state: &mut LowLevelInput,
    after: &mut LowLevelInput,
    install: bool,
    remove: bool,
)
    requires
        call_ensures(acquire, (state,), install),
        *after == *final(state),
        call_ensures(release, (after,), remove),
        state.blocking_sessions < usize::MAX,
    ensures
        final(state).blocking_sessions == old(state).blocking_sessions + 1,
        install == (old(state).blocking_sessions == 0),
        remove == (old(state).blocking_sessions == 0),
        *final(after) == *old(state),
{
}

/// Each installed hook is handed out once, under its own name, and none that could
/// not be installed; afterwards there is none.
pub proof fn law_installed_hooks_are_handed_out(
    state: &mut LowLevelInput,
    after: &mut LowLevelInput,
    last: &mut LowLevelInput,
    mouse: Option<usize>,
    keyboard: Option<usize>,
    hooks: (Option<usize>, Option<usize>),
    again: (Option<usize>, Option<usize>),
)
    requires
        state.mouse_hook == 0,
        state.keyboard_hook == 0,
        mouse matches Some(hook) ==> hook != 0,
        keyboard matches Some(hook) ==> hook != 0,
        call_ensures(install, (state, mouse, keyboard), ()),
        *after == *final(state),
        call_ensures(uninstall, (after,), hooks),
        *last == *final(after),
        call_ensures(uninstall, (last,), again),
    ensures
        hooks.0 == mouse,
        hooks.1 == keyboard,
        again.0 is None && again.1 is None,
        *final(after) == *old(state),
{
}

/// A hook that could not be installed leaves the one that there was; the next hook is
/// named by its number, and by nothing where there is none.
pub proof fn law_failed_hook_leaves_the_old_one(
    state: &mut LowLevelInput,
    keyboard: Option<usize>,
    named: Option<usize>,
)
    requires
        call_ensures(install, (state, None::<usize>, keyboard), ()),
        call_ensures(next_hook, (state.mouse_hook,), named),
    ensures
        final(state).mouse_hook == old(state).mouse_hook,
        keyboard is Some ==> final(state).keyboard_hook == keyboard->0,
        keyboard is None ==> final(state).keyboard_hook == old(state).keyboard_hook,
        final(state).route_hwnd == old(state).route_hwnd,
        final(state).blocking_sessions == old(state).blocking_sessions,
        named is Some <==> old(state).mouse_hook != 0,
        named is Some ==> named->0 == old(state).mouse_hook,
{
}

/// Nothing is routed, hooked or reported at the start.
pub proof fn law_nothing_is_hooked_at_first(state: LowLevelInput)
    requires
        call_ensures(LowLevelInput::new, (), state),
    ensures
        state.route_hwnd == 0 && state.blocking_sessions == 0 && state.mouse_hook == 0
            && state.keyboard_hook == 0 && state.last_move_tick == 0
            && state.last_keyboard_emit is None,
{
}

} // verus!
