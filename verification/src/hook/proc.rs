//! The game's message loop.
//!
//! While the game's input is blocked, its mouse and keyboard messages are
//! turned into empty ones; before that, the overlay gets to see them.

use crate::backend::window::input_event::{cursor_overlay_event, keyboard_overlay_event};
use crate::backend::window::input_ll::{
    WM_CHAR, WM_KEYDOWN, WM_KEYUP, WM_LBUTTONDBLCLK, WM_LBUTTONDOWN, WM_LBUTTONUP, WM_MBUTTONDBLCLK,
    WM_MBUTTONDOWN, WM_MBUTTONUP, WM_MOUSEHWHEEL, WM_MOUSEMOVE, WM_MOUSEWHEEL, WM_RBUTTONDBLCLK,
    WM_RBUTTONDOWN, WM_RBUTTONUP, WM_SYSCHAR, WM_SYSKEYDOWN, WM_SYSKEYUP, WM_XBUTTONDBLCLK,
    WM_XBUTTONDOWN, WM_XBUTTONUP,
};
use crate::backend::window::WindowProcData;
use crate::event::{
    CursorAction, CursorEvent, CursorInputState, InputPosition, Key, KeyInputState, KeyboardInput,
    OverlayEvent, ScrollAxis,
};
use vstd::prelude::*;

pub mod input;

verus! {

/// The empty message.
pub const WM_NULL: u32 = 0;

/// A peek that takes the message out of the queue.
pub const PM_REMOVE: u32 = 1;

/// A message of a window.
#[derive(Debug, Clone, Copy, PartialEq, Eq, Structural)]
pub struct Msg {
    pub hwnd: usize,
    pub message: u32,
    pub wparam: usize,
    pub lparam: isize,
    pub time: u32,
}

/// The mouse messages, wheels and extra buttons among them.
pub open spec fn cursor_message(message: u32) -> bool {
    WM_MOUSEMOVE <= message <= WM_MOUSEHWHEEL
}

/// The messages of a key that goes down or up, and of a character.
pub open spec fn keyboard_message(message: u32) -> bool {
    WM_KEYDOWN <= message <= WM_CHAR || WM_SYSKEYDOWN <= message <= WM_SYSCHAR
}

/// Whether a message is for the overlay alone.
pub open spec fn consumes(message: u32, interactive: bool) -> bool {
    interactive && (cursor_message(message) || keyboard_message(message))
}

/// Whether a message comes from the mouse.
pub fn is_cursor_message(message: u32) -> (cursor: bool)
    ensures
        cursor == cursor_message(message),
{
    match message {
        WM_MOUSEMOVE
        | WM_LBUTTONDOWN
        | WM_LBUTTONUP
        | WM_LBUTTONDBLCLK
        | WM_RBUTTONDOWN
        | WM_RBUTTONUP
        | WM_RBUTTONDBLCLK
        | WM_MBUTTONDOWN
        | WM_MBUTTONUP
        | WM_MBUTTONDBLCLK
        | WM_XBUTTONDOWN
        | WM_XBUTTONUP
        | WM_XBUTTONDBLCLK
        | WM_MOUSEWHEEL
        | WM_MOUSEHWHEEL => true,
        _ => false,
    }
}

/// Whether a message comes from the keyboard.
pub fn is_keyboard_message(message: u32) -> (keyboard: bool)
    ensures
        keyboard == keyboard_message(message),
{
    match message {
        WM_KEYDOWN | WM_KEYUP | WM_CHAR | WM_SYSKEYDOWN | WM_SYSKEYUP | WM_SYSCHAR => true,
        _ => false,
    }
}

/// Whether a message is for the overlay alone: mouse and keyboard messages are
/// while it is interactive.
pub fn should_consume_pump_message(message: u32, interactive: bool) -> (consume: bool)
    ensures
        consume == consumes(message, interactive),
{
    interactive && (is_cursor_message(message) || is_keyboard_message(message))
}

/// The message as the game gets to see it.
pub open spec fn pumped(msg: Msg, interactive: bool) -> Msg {
    if consumes(msg.message, interactive) {
        Msg { message: WM_NULL, ..msg }
    } else {
        msg
    }
}

/// Empties a message that is for the overlay alone.
pub fn apply_pump_consume(msg: &mut Msg, interactive: bool)
    ensures
        *final(msg) == pumped(*old(msg), interactive),
{
    if should_consume_pump_message(msg.message, interactive) {
        msg.message = WM_NULL;
    }
}

/// Whether a message is kept from the game; `blocking` tells whether the window
/// that it belongs to has its input blocked, if that is a known window.
pub fn should_filter_message(msg: &Msg, blocking: Option<bool>) -> (filter: bool)
    ensures
        filter == consumes(msg.message, blocking == Some(true)),
{
    should_consume_pump_message(
        msg.message,
        match blocking {
            Some(blocking) => blocking,
            None => false,
        },
    )
}

/// What is left to do with a message that was asked for.
#[derive(Debug, Clone, Copy, PartialEq, Eq, Structural)]
pub struct PumpStep {
    /// Show the message to the overlay.
    pub observe: bool,
    /// Have key messages translated into characters.
    pub translate: bool,
    /// Hand the message to the default window procedure.
    pub call_default: bool,
    /// The message that the game gets to see.
    pub message: u32,
    /// What the game is told.
    pub answer: bool,
}

/// A message was waited for; `read` is what the system said. The overlay sees
/// the message in any case, before anything else: `blocking` tells of the input of
/// its window once the overlay has seen it. A message that is kept from the game
/// is translated and handled by default before it becomes empty.
pub fn process_read_message(msg: &Msg, read: bool, blocking: Option<bool>) -> (step: PumpStep)
    ensures
        ({
            let filtered = read && consumes(msg.message, blocking == Some(true));
            step == PumpStep {
                observe: true,
                translate: filtered,
                call_default: filtered,
                message: if filtered {
                    WM_NULL
                } else {
                    msg.message
                },
                answer: read,
            }
        }),
{
    if !read {
        return PumpStep {
            observe: true,
            translate: false,
            call_default: false,
            message: msg.message,
            answer: false,
        };
    }
    let filter = should_filter_message(msg, blocking);
    PumpStep {
        observe: true,
        translate: filter,
        call_default: filter,
        message: if filter {
            WM_NULL
        } else {
            msg.message
        },
        answer: true,
    }
}

/// A message was peeked at; `read` is what the system said. The overlay sees a
/// message that leaves the queue, and only then.
pub fn process_peek_message(msg: &Msg, remove: u32, read: bool, blocking: Option<bool>) -> (step:
    PumpStep)
    ensures
        ({
            let filtered = read && consumes(msg.message, blocking == Some(true));
            let removed = read && remove % 2 == 1;
            step == PumpStep {
                observe: removed,
                translate: removed && filtered,
                call_default: false,
                message: if filtered {
                    WM_NULL
                } else {
                    msg.message
                },
                answer: read,
            }
        }),
{
    if !read {
        return PumpStep {
            observe: false,
            translate: false,
            call_default: false,
            message: msg.message,
            answer: false,
        };
    }
    let filter = should_filter_message(msg, blocking);
    let removed = remove & PM_REMOVE == PM_REMOVE;
    assert((remove & 1 == 1) == (remove % 2 == 1)) by (bit_vector);
    PumpStep {
        observe: removed,
        translate: removed && filter,
        call_default: false,
        message: if filter {
            WM_NULL
        } else {
            msg.message
        },
        answer: true,
    }
}

/// The message that is dispatched in place of `msg`.
pub fn process_dispatch_message(msg: &Msg, blocking: Option<bool>) -> (dispatched: Msg)
    ensures
        dispatched == pumped(*msg, blocking == Some(true)),
{
    let mut dispatched = *msg;
    if should_filter_message(msg, blocking) {
        apply_pump_consume(&mut dispatched, true);
    }
    dispatched
}

/// Whether a message is translated for its character: where a key goes down.
pub fn translate_keydown_for_char(message: u32) -> (translate: bool)
    ensures
        translate == (message == WM_KEYDOWN || message == WM_SYSKEYDOWN),
{
    message == WM_KEYDOWN || message == WM_SYSKEYDOWN
}

/// `n` as a signed number of 16 bits.
pub open spec fn signed16(n: int) -> int {
    if n < 0x8000 {
        n
    } else {
        n - 0x1_0000
    }
}

/// Lower half of a word, as a signed number.
pub open spec fn low_word(word: u32) -> int {
    signed16((word % 0x1_0000) as int)
}

/// Upper half of a word, as a signed number.
pub open spec fn high_word(word: u32) -> int {
    signed16((word / 0x1_0000) as int)
}

/// The bytes of a word, lowest first: `bytemuck::cast` from `u32` to `[u8; 4]`
/// reinterprets the four bytes in memory, which `to_le` put in that order.
#[verifier::external_body]
pub(crate) fn word_bytes(word: u32) -> (bytes: [u8; 4])
    ensures
        bytes@[0] == word % 0x100,
        bytes@[1] == (word / 0x100) % 0x100,
        bytes@[2] == (word / 0x1_0000) % 0x100,
        bytes@[3] == word / 0x100_0000,
{
    bytemuck::cast(word.to_le())
}

fn signed_pair(low: u8, high: u8) -> (n: i16)
    ensures
        n == signed16(low + 0x100 * high),
{
    let n: i32 = low as i32 + 0x100 * (high as i32);
    if n < 0x8000 {
        n as i16
    } else {
        (n - 0x1_0000) as i16
    }
}

fn signed_halves(word: u32) -> (halves: (i16, i16))
    ensures
        halves.0 == low_word(word),
        halves.1 == high_word(word),
{
    let bytes = word_bytes(word);
    (signed_pair(bytes[0], bytes[1]), signed_pair(bytes[2], bytes[3]))
}

/// The cursor's place that a mouse message carries: the two halves of a word.
pub open spec fn place(lparam: isize) -> InputPosition {
    InputPosition { x: low_word(lparam as u32) as i32, y: high_word(lparam as u32) as i32 }
}

/// The cursor's place in the surface and in the window.
pub fn parse_cursor_position(proc: &WindowProcData, lparam: isize) -> (positions: (
    InputPosition,
    InputPosition,
))
    ensures
        positions.0 == place(lparam).seen_from(proc.position),
        positions.1 == place(lparam),
{
    let (x, y) = signed_halves(lparam as u32);
    let window = InputPosition { x: x as i32, y: y as i32 };
    (window.relative_to(proc.position), window)
}

/// What a mouse message tells the overlay.
pub open spec fn message_cursor(message: u32, wparam: usize) -> Option<CursorEvent> {
    let pressed = CursorInputState::Pressed { double_click: false };
    let released = CursorInputState::Released;
    if message == WM_MOUSEMOVE {
        Some(CursorEvent::Move)
    } else if message == WM_LBUTTONDOWN || message == WM_LBUTTONDBLCLK {
        Some(CursorEvent::Action { state: pressed, action: CursorAction::Left })
    } else if message == WM_LBUTTONUP {
        Some(CursorEvent::Action { state: released, action: CursorAction::Left })
    } else if message == WM_RBUTTONDOWN || message == WM_RBUTTONDBLCLK {
        Some(CursorEvent::Action { state: pressed, action: CursorAction::Right })
    } else if message == WM_RBUTTONUP {
        Some(CursorEvent::Action { state: released, action: CursorAction::Right })
    } else if message == WM_MBUTTONDOWN || message == WM_MBUTTONDBLCLK {
        Some(CursorEvent::Action { state: pressed, action: CursorAction::Middle })
    } else if message == WM_MBUTTONUP {
        Some(CursorEvent::Action { state: released, action: CursorAction::Middle })
    } else if message == WM_MOUSEWHEEL {
        Some(
            CursorEvent::Scroll { axis: ScrollAxis::Y, delta: high_word(wparam as u32) as i16 },
        )
    } else if message == WM_MOUSEHWHEEL {
        Some(
            CursorEvent::Scroll { axis: ScrollAxis::X, delta: high_word(wparam as u32) as i16 },
        )
    } else {
        None
    }
}

fn emit_cursor_event(id: u32, proc: &WindowProcData, event: CursorEvent, lparam: isize) -> (built:
    OverlayEvent)
    ensures
        built == crate::backend::window::input_event::cursor_event(
            id,
            proc.position,
            place(lparam),
            event,
        ),
{
    let (_surface, window) = parse_cursor_position(proc, lparam);
    cursor_overlay_event(id, proc.position, window, event)
}

fn button(action: CursorAction, pressed: bool) -> (event: CursorEvent)
    ensures
        event == (CursorEvent::Action {
            state: if pressed {
                CursorInputState::Pressed { double_click: false }
            } else {
                CursorInputState::Released
            },
            action,
        }),
{
    if pressed {
        CursorEvent::Action { state: CursorInputState::Pressed { double_click: false }, action }
    } else {
        CursorEvent::Action { state: CursorInputState::Released, action }
    }
}

/// The cursor event that a message is. While input is blocked there is none:
/// the low-level hook reports the cursor then.
pub fn emit_cursor_event_from_message(id: u32, proc: &WindowProcData, msg: &Msg) -> (event: Option<
    OverlayEvent,
>)
    ensures
        event == seen(id, *proc, *msg),
{
    if proc.input_blocking() {
        return None;
    }
    let cursor: CursorEvent = match msg.message {
        WM_MOUSEMOVE => CursorEvent::Move,
        WM_LBUTTONDOWN | WM_LBUTTONDBLCLK => button(CursorAction::Left, true),
        WM_LBUTTONUP => button(CursorAction::Left, false),
        WM_RBUTTONDOWN | WM_RBUTTONDBLCLK => button(CursorAction::Right, true),
        WM_RBUTTONUP => button(CursorAction::Right, false),
        WM_MBUTTONDOWN | WM_MBUTTONDBLCLK => button(CursorAction::Middle, true),
        WM_MBUTTONUP => button(CursorAction::Middle, false),
        WM_MOUSEWHEEL => CursorEvent::Scroll {
            axis: ScrollAxis::Y,
            delta: signed_halves(msg.wparam as u32).1,
        },
        WM_MOUSEHWHEEL => CursorEvent::Scroll {
            axis: ScrollAxis::X,
            delta: signed_halves(msg.wparam as u32).1,
        },
        _ => {
            return None;
        },
    };
    Some(emit_cursor_event(id, proc, cursor, msg.lparam))
}

/// The character with a code, if the code is one: `char::from_u32` accepts
/// every code up to 0x10FFFF that is no surrogate, and nothing else.
#[verifier::external_body]
pub(crate) fn char_of(code: u32) -> (found: Option<char>)
    ensures
        found is Some <==> (code < 0xD800 || 0xDFFF < code <= 0x10FFFF),
        found matches Some(c) ==> c as u32 == code,
{
    char::from_u32(code)
}

/// The scan code that a key message carries.
pub open spec fn scan_code(lparam: isize) -> u32 {
    ((lparam as u32) / 0x1_0000) % 0x100
}

/// Whether a key message is about an extended key.
pub open spec fn is_extended(lparam: isize) -> bool {
    ((lparam as u32) / 0x100_0000) % 2 == 1
}

/// The key that a key message is about. `map_vk` maps its scan code to a
/// virtual key; a scan code without one is no key.
pub fn to_key(lparam: isize, map_vk: impl FnOnce(u32) -> u32) -> (key: Option<Key>)
    requires
        call_requires(map_vk, (scan_code(lparam),)),
    ensures
        exists|vk: u32| #[trigger]
            call_ensures(map_vk, (scan_code(lparam),), vk) && key == (if vk % 0x100 == 0 {
                None
            } else {
                Some(Key { code: (vk % 0x100) as u8, extended: is_extended(lparam) })
            }),
{
    let bytes = word_bytes(lparam as u32);
    let vk: u32 = map_vk(bytes[2] as u32);
    assert(call_ensures(map_vk, (scan_code(lparam),), vk));
    Key::new((vk % 0x100) as u8, bytes[3] % 2 == 1)
}

/// Whether `event` is what a keyboard message tells the overlay: the character
/// with its code, if there is one, or the transition of the key that `map_vk`
/// finds for its scan code, if there is one.
pub open spec fn heard<F: FnOnce(u32) -> u32>(
    id: u32,
    msg: Msg,
    map_vk: F,
    event: Option<OverlayEvent>,
) -> bool {
    if msg.message == WM_CHAR || msg.message == WM_SYSCHAR {
        if 0xD800 <= msg.wparam as u32 <= 0xDFFF || msg.wparam as u32 > 0x10FFFF {
            event is None
        } else {
            exists|c: char|
                c as u32 == msg.wparam as u32 && event == Some(
                    #[trigger] crate::backend::window::input_event::keyboard_event(
                        id,
                        KeyboardInput::Char(c),
                    ),
                )
        }
    } else {
        match crate::backend::window::input_ll::key_transition(msg.message) {
            Some(transition) => exists|vk: u32| #[trigger]
                call_ensures(map_vk, (scan_code(msg.lparam),), vk) && event == (if vk % 0x100
                    == 0 {
                    None
                } else {
                    Some(
                        crate::backend::window::input_event::keyboard_event(
                            id,
                            KeyboardInput::Key {
                                key: Key {
                                    code: (vk % 0x100) as u8,
                                    extended: is_extended(msg.lparam),
                                },
                                state: transition,
                            },
                        ),
                    )
                }),
            None => event is None,
        }
    }
}

/// The keyboard event that a message is: a character, or a key that goes down
/// or up. It is the same whether input is blocked or not.
pub fn emit_keyboard_event_from_message(
    id: u32,
    msg: &Msg,
    map_vk: impl FnOnce(u32) -> u32,
) -> (event: Option<OverlayEvent>)
    requires
        crate::backend::window::input_ll::key_transition(msg.message) is Some ==> call_requires(
            map_vk,
            (scan_code(msg.lparam),),
        ),
    ensures
        heard(id, *msg, map_vk, event),
{
    match msg.message {
        WM_CHAR | WM_SYSCHAR => match char_of(msg.wparam as u32) {
            Some(c) => {
                let event = keyboard_overlay_event(id, KeyboardInput::Char(c));
                assert(event == crate::backend::window::input_event::keyboard_event(
                    id,
                    KeyboardInput::Char(c),
                ));
                Some(event)
            },
            None => None,
        },
        WM_KEYDOWN | WM_SYSKEYDOWN => match to_key(msg.lparam, map_vk) {
            Some(key) => Some(
                keyboard_overlay_event(
                    id,
                    KeyboardInput::Key { key, state: KeyInputState::Pressed },
                ),
            ),
            None => None,
        },
        WM_KEYUP | WM_SYSKEYUP => match to_key(msg.lparam, map_vk) {
            Some(key) => Some(
                keyboard_overlay_event(
                    id,
                    KeyboardInput::Key { key, state: KeyInputState::Released },
                ),
            ),
            None => None,
        },
        _ => None,
    }
}

/// The events that there are, of two.
pub open spec fn both(first: Option<OverlayEvent>, second: Option<OverlayEvent>) -> Seq<
    OverlayEvent,
> {
    match (first, second) {
        (Some(first), Some(second)) => seq![first, second],
        (Some(event), None) => seq![event],
        (None, Some(event)) => seq![event],
        (None, None) => seq![],
    }
}

/// The cursor event that a message is for a window.
pub open spec fn seen(id: u32, proc: WindowProcData, msg: Msg) -> Option<OverlayEvent> {
    match message_cursor(msg.message, msg.wparam) {
        Some(cursor) if proc.blocking_state is None => Some(
            crate::backend::window::input_event::cursor_event(
                id,
                proc.position,
                place(msg.lparam),
                cursor,
            ),
        ),
        _ => None,
    }
}

/// The cursor event that a message is for a window, if it is listened to.
pub open spec fn noticed(id: u32, proc: WindowProcData, msg: Msg) -> Option<OverlayEvent> {
    if proc.wants_cursor() {
        seen(id, proc, msg)
    } else {
        None
    }
}

/// What a message tells the overlay: a cursor event, and then a keyboard event,
/// as far as they are listened to.
pub fn on_message_read(
    id: u32,
    proc: &WindowProcData,
    msg: &Msg,
    map_vk: impl FnOnce(u32) -> u32,
) -> (events: Vec<OverlayEvent>)
    requires
        proc.wants_keyboard() && crate::backend::window::input_ll::key_transition(
            msg.message,
        ) is Some ==> call_requires(map_vk, (scan_code(msg.lparam),)),
    ensures
        exists|key: Option<OverlayEvent>|
            {
                &&& if proc.wants_keyboard() {
                    heard(id, *msg, map_vk, key)
                } else {
                    key is None
                }
                &&& events@ == #[trigger] both(noticed(id, *proc, *msg), key)
            },
{
    let mut events: Vec<OverlayEvent> = Vec::new();
    let mut cursor: Option<OverlayEvent> = None;
    if proc.listening_cursor() {
        cursor = emit_cursor_event_from_message(id, proc, msg);
        if let Some(event) = cursor {
            events.push(event);
        }
    }
    let mut key: Option<OverlayEvent> = None;
    if proc.listening_keyboard() {
        key = emit_keyboard_event_from_message(id, msg, map_vk);
        if let Some(event) = key {
            events.push(event);
        }
    }
    assert(events@ =~= both(cursor, key));
    events
}

/// Whether the current thread is reading a message; reading nests.
pub struct MessageReading {
    reading: bool,
}

impl MessageReading {
    /// Whether a message is being read.
    pub closed spec fn active(&self) -> bool {
        self.reading
    }

    /// No message is being read.
    pub fn new() -> (state: MessageReading)
        ensures
            !state.active(),
    {
        MessageReading { reading: false }
    }

    /// Whether a message is being read.
    pub fn message_reading(&self) -> (reading: bool)
        ensures
            reading == self.active(),
    {
        self.reading
    }

    /// Marks the start of reading a message, and hands out what to put back at
    /// its end.
    pub fn enter(&mut self) -> (last: bool)
        ensures
            last == old(self).active(),
            final(self).active(),
    {
        let last = self.reading;
        self.reading = true;
        last
    }

    /// Marks the end of reading a message.
    pub fn leave(&mut self, last: bool)
        ensures
            final(self).active() == last,
    {
        self.reading = last;
    }
}

/// A message that the game gets to see is never one that is for the overlay
/// alone, and emptying it again changes nothing.
pub proof fn law_pumped_messages_are_harmless(msg: Msg, interactive: bool)
    ensures
        !consumes(pumped(msg, interactive).message, interactive),
        pumped(pumped(msg, interactive), interactive) == pumped(msg, interactive),
{
}

/// While the overlay is interactive no mouse message, 0x200 to 0x20E, and no message of
/// a key or character, 0x100 to 0x102 and 0x104 to 0x106, reaches the game: it becomes
/// message 0, with all else as it was. Every other message reaches the game as it is,
/// and so does every message while the overlay is not interactive.
pub proof fn law_input_never_reaches_the_game(
    msg: &mut Msg,
    interactive: bool,
    dispatched: Msg,
    filter: bool,
    consume: bool,
)
    requires
        call_ensures(apply_pump_consume, (msg, interactive), ()),
        call_ensures(process_dispatch_message, (&*msg, Some(interactive)), dispatched),
        call_ensures(should_filter_message, (&*msg, Some(interactive)), filter),
        call_ensures(should_consume_pump_message, (msg.message, interactive), consume),
    ensures
        ({
            let message = old(msg).message;
            let input = 0x200 <= message <= 0x20E || 0x100 <= message <= 0x102 || 0x104 <= message
                <= 0x106;
            &&& interactive && input ==> final(msg).message == 0 && filter && consume
            &&& !interactive || !input ==> final(msg).message == message && !filter && !consume
        }),
        final(msg).hwnd == old(msg).hwnd,
        final(msg).wparam == old(msg).wparam,
        final(msg).lparam == old(msg).lparam,
        final(msg).time == old(msg).time,
        dispatched == *final(msg),
{
}

/// A message of a window that is not known is left alone.
pub proof fn law_unknown_windows_keep_their_messages(msg: Msg, dispatched: Msg, filter: bool)
    requires
        call_ensures(process_dispatch_message, (&msg, None::<bool>), dispatched),
        call_ensures(should_filter_message, (&msg, None::<bool>), filter),
    ensures
        dispatched == msg,
        !filter,
{
}

/// The messages from 0x200 to 0x20E come from the mouse, those from 0x100 to 0x102 and
/// from 0x104 to 0x106 from the keyboard, and no others from either; a key that goes
/// down, 0x100 or 0x104, may be a character.
pub proof fn law_messages_tell_their_device(
    message: u32,
    cursor: bool,
    keyboard: bool,
    translate: bool,
)
    requires
        call_ensures(is_cursor_message, (message,), cursor),
        call_ensures(is_keyboard_message, (message,), keyboard),
        call_ensures(translate_keydown_for_char, (message,), translate),
    ensures
        cursor <==> 0x200 <= message <= 0x20E,
        keyboard <==> 0x100 <= message <= 0x106 && message != 0x103,
        translate <==> message == 0x100 || message == 0x104,
{
}

/// A message that was waited for is shown to the overlay in any case, and the game
/// hears what the system said. Where input is blocked, mouse and keyboard messages are
/// translated and handled by default, and the game sees message 0; else nothing is done
/// and the game sees the message.
pub proof fn law_read_messages_are_kept_from_the_game(
    msg: Msg,
    read: bool,
    blocking: Option<bool>,
    step: PumpStep,
)
    requires
        call_ensures(process_read_message, (&msg, read, blocking), step),
    ensures
        step.observe,
        step.answer == read,
        ({
            let input = 0x200 <= msg.message <= 0x20E || 0x100 <= msg.message <= 0x102 || 0x104
                <= msg.message <= 0x106;
            let kept = read && blocking == Some(true) && input;
            &&& kept ==> step.message == 0 && step.translate && step.call_default
            &&& !kept ==> step.message == msg.message && !step.translate && !step.call_default
        }),
{
}

/// A message that is peeked at is shown to the overlay when it leaves the queue, which
/// the lowest flag asks for, and only then; then a message that is kept from the game
/// is translated too. The default procedure is never called for it.
pub proof fn law_peeked_messages_are_kept_from_the_game(
    msg: Msg,
    remove: u32,
    read: bool,
    blocking: Option<bool>,
    step: PumpStep,
)
    requires
        call_ensures(process_peek_message, (&msg, remove, read, blocking), step),
    ensures
        step.observe == (read && remove % 2 == 1),
        step.answer == read,
        !step.call_default,
        ({
            let input = 0x200 <= msg.message <= 0x20E || 0x100 <= msg.message <= 0x102 || 0x104
                <= msg.message <= 0x106;
            let kept = read && blocking == Some(true) && input;
            &&& kept ==> step.message == 0
            &&& !kept ==> step.message == msg.message
            &&& step.translate == (kept && remove % 2 == 1)
        }),
{
}

/// A mouse message carries the cursor's place: its lower half is how far right, its
/// upper half how far down, both signed. From the surface it is seen from where the
/// surface starts.
pub proof fn law_place_is_read_from_the_halves(
    proc: WindowProcData,
    lparam: isize,
    positions: (InputPosition, InputPosition),
    x: i16,
    y: i16,
)
    requires
        call_ensures(parse_cursor_position, (&proc, lparam), positions),
        lparam as u32 == (if x < 0 {
            x + 0x1_0000
        } else {
            x as int
        }) + 0x1_0000 * (if y < 0 {
            y + 0x1_0000
        } else {
            y as int
        }),
    ensures
        positions.1.x == x,
        positions.1.y == y,
        positions.0.x.wrapping_add(proc.position.0) == x,
        positions.0.y.wrapping_add(proc.position.1) == y,
{
    let word = lparam as u32;
    let low: int = if x < 0 {
        x + 0x1_0000
    } else {
        x as int
    };
    let high: int = if y < 0 {
        y + 0x1_0000
    } else {
        y as int
    };
    assert(word as int == low + 0x1_0000 * high);
    assert(word as int / 0x1_0000 == high && word as int % 0x1_0000 == low) by (nonlinear_arith)
        requires
            word as int == low + 0x1_0000 * high,
            0 <= low < 0x1_0000,
            0 <= high < 0x1_0000,
    ;
}

/// What a mouse message tells while input is not blocked: 0x200 is a move; 0x201 and
/// 0x203 press the left button and 0x202 releases it, 0x204, 0x206 and 0x205 the right
/// one, 0x207, 0x209 and 0x208 the middle one; 0x20A and 0x20E turn the wheels, by the
/// upper half of the word, signed. It is told of the window, at the place that the
/// message carries. Nothing is told of other messages, nor while input is blocked.
pub proof fn law_mouse_messages_tell_what_happened(
    id: u32,
    proc: WindowProcData,
    msg: Msg,
    event: Option<OverlayEvent>,
    positions: (InputPosition, InputPosition),
)
    requires
        call_ensures(emit_cursor_event_from_message, (id, &proc, &msg), event),
        call_ensures(parse_cursor_position, (&proc, msg.lparam), positions),
    ensures
        event is Some <==> proc.blocking_state is None && 0x200 <= msg.message <= 0x20E
            && !(0x20B <= msg.message <= 0x20D),
        event matches Some(told) ==> (told matches OverlayEvent::Window {
            id: named,
            event: crate::event::WindowEvent::Input(crate::event::InputEvent::Cursor(seen)),
        } && {
            let half = (msg.wparam as u32) as int / 0x1_0000;
            &&& named == id
            &&& seen.client == positions.0
            &&& seen.window == positions.1
            &&& seen.event is Move <==> msg.message == 0x200
            &&& seen.event is Action <==> 0x201 <= msg.message <= 0x209
            &&& seen.event matches CursorEvent::Action { state, action } ==> {
                &&& action is Left <==> msg.message <= 0x203
                &&& action is Right <==> 0x204 <= msg.message <= 0x206
                &&& action is Middle <==> 0x207 <= msg.message
                &&& state is Released <==> msg.message == 0x202 || msg.message == 0x205
                    || msg.message == 0x208
                &&& state is Pressed ==> state == (CursorInputState::Pressed {
                    double_click: false,
                })
            }
            &&& seen.event is Scroll <==> msg.message == 0x20A || msg.message == 0x20E
            &&& seen.event matches CursorEvent::Scroll { axis, delta } ==> {
                &&& axis is Y <==> msg.message == 0x20A
                &&& half < 0x8000 ==> delta == half
                &&& half >= 0x8000 ==> delta == half - 0x1_0000
            }
        }),
{
}

/// A key message carries a scan code in its third byte, which is mapped to a virtual
/// key; the low byte of that is the key, the lowest bit of the fourth byte marks an
/// extended one. Nothing is a key where that byte is 0.
pub proof fn law_key_is_read_from_the_scan_code<F: FnOnce(u32) -> u32>(
    lparam: isize,
    map_vk: F,
    key: Option<Key>,
)
    requires
        call_ensures(to_key, (lparam, map_vk), key),
    ensures
        exists|vk: u32| #[trigger]
            call_ensures(map_vk, (((lparam as u32) / 0x1_0000) % 0x100,), vk) && {
                &&& key is None <==> vk % 256 == 0
                &&& key matches Some(found) ==> found.code == vk % 256 && found.extended == (((
                lparam as u32) / 0x100_0000) % 2 == 1)
            },
{
    let vk = choose|vk: u32| #[trigger]
        call_ensures(map_vk, (scan_code(lparam),), vk) && key == (if vk % 0x100 == 0 {
            None
        } else {
            Some(Key { code: (vk % 0x100) as u8, extended: is_extended(lparam) })
        });
    assert(call_ensures(map_vk, (((lparam as u32) / 0x1_0000) % 0x100,), vk));
}

/// What a keyboard message tells: 0x100 and 0x104 that the key went down, 0x101 and
/// 0x105 that it went up, 0x102 and 0x106 the character with its code. Other messages
/// tell nothing, and neither do codes that are no character.
pub proof fn law_keyboard_messages_tell_what_happened<F: FnOnce(u32) -> u32>(
    id: u32,
    msg: Msg,
    map_vk: F,
    event: Option<OverlayEvent>,
)
    requires
        call_ensures(emit_keyboard_event_from_message, (id, &msg, map_vk), event),
    ensures
        event is Some ==> 0x100 <= msg.message <= 0x106 && msg.message != 0x103,
        msg.message == 0x102 || msg.message == 0x106 ==> {
            let code = msg.wparam as u32;
            &&& event is Some <==> code < 0xD800 || 0xDFFF < code <= 0x10FFFF
            &&& event matches Some(told) ==> (told matches OverlayEvent::Window {
                id: named,
                event: crate::event::WindowEvent::Input(
                    crate::event::InputEvent::Keyboard(KeyboardInput::Char(c)),
                ),
            } && named == id && c as u32 == code)
        },
        event is Some && msg.message != 0x102 && msg.message != 0x106 ==> (event matches Some(
            OverlayEvent::Window {
                id: named,
                event: crate::event::WindowEvent::Input(
                    crate::event::InputEvent::Keyboard(KeyboardInput::Key { key, state }),
                ),
            },
        ) && {
            &&& named == id
            &&& state is Pressed <==> msg.message == 0x100 || msg.message == 0x104
            &&& key.extended == (((msg.lparam as u32) / 0x100_0000) % 2 == 1)
            &&& key.code != 0
            &&& exists|vk: u32| #[trigger]
                call_ensures(map_vk, (((msg.lparam as u32) / 0x1_0000) % 0x100,), vk) && key.code
                    == vk % 256
        }),
{
    if event is Some && msg.message != 0x102 && msg.message != 0x106 {
        let vk = choose|vk: u32| #[trigger]
            call_ensures(map_vk, (scan_code(msg.lparam),), vk) && event == (if vk % 0x100 == 0 {
                None
            } else {
                Some(
                    crate::backend::window::input_event::keyboard_event(
                        id,
                        KeyboardInput::Key {
                            key: Key {
                                code: (vk % 0x100) as u8,
                                extended: is_extended(msg.lparam),
                            },
                            state: crate::backend::window::input_ll::key_transition(
                                msg.message,
                            )->0,
                        },
                    ),
                )
            });
        assert(call_ensures(map_vk, (((msg.lparam as u32) / 0x1_0000) % 0x100,), vk));
    }
}

/// What the overlay hears of a message is what was asked for: nothing of the cursor
/// unless it is listened to, nothing of keys unless they are; a blocked window listens
/// to keys in any case, and hears nothing of the cursor here. Of one message it hears
/// one thing at most.
pub proof fn law_overlay_hears_what_it_listens_to<F: FnOnce(u32) -> u32>(
    id: u32,
    proc: WindowProcData,
    msg: Msg,
    map_vk: F,
    events: Vec<OverlayEvent>,
)
    requires
        call_ensures(on_message_read, (id, &proc, &msg, map_vk), events),
    ensures
        events@.len() <= 1,
        events@.len() == 1 ==> (events@[0] matches OverlayEvent::Window {
            id: named,
            event: crate::event::WindowEvent::Input(input),
        } && named == id && match input {
            crate::event::InputEvent::Cursor(_) => 0x200 <= msg.message <= 0x20E
                && proc.listen_input.cursor && proc.blocking_state is None,
            crate::event::InputEvent::Keyboard(_) => 0x100 <= msg.message <= 0x106 && (
            proc.listen_input.keyboard || proc.blocking_state is Some),
        }),
        0x200 <= msg.message <= 0x20A && proc.listen_input.cursor && proc.blocking_state is None
            ==> events@.len() == 1,
        (msg.message == 0x102 || msg.message == 0x106) && (msg.wparam as u32) < 0xD800 && (
        proc.listen_input.keyboard || proc.blocking_state is Some) ==> events@.len() == 1,
{
    let key = choose|key: Option<OverlayEvent>|
        {
            &&& if proc.wants_keyboard() {
                heard(id, msg, map_vk, key)
            } else {
                key is None
            }
            &&& events@ == #[trigger] both(noticed(id, proc, msg), key)
        };
    assert(events@ == both(noticed(id, proc, msg), key));
}

/// Reading is marked from its start to its end, and nests: the end puts back what was
/// there at the start.
pub proof fn law_reading_nests(
    state: &mut MessageReading,
    after: &mut MessageReading,
    fresh: MessageReading,
    last: bool,
    before: bool,
    during: bool,
    later: bool,
    never: bool,
)
    requires
        call_ensures(MessageReading::message_reading, (&*state,), before),
        call_ensures(MessageReading::enter, (state,), last),
        call_ensures(MessageReading::message_reading, (&*final(state),), during),
        *after == *final(state),
        call_ensures(MessageReading::leave, (after, last), ()),
        call_ensures(MessageReading::message_reading, (&*final(after),), later),
        call_ensures(MessageReading::new, (), fresh),
        call_ensures(MessageReading::message_reading, (&fresh,), never),
    ensures
        during,
        later == before,
        !never,
{
}

} // verus!
