//! What the game gets to know, and to change, of cursor and keys.
//!
//! While the input of a window is blocked, the game sees no keys and a cursor
//! that stands still, and what it sets of the cursor is kept for later. The
//! overlay's own calls pass.

use crate::backend::window::InputBlockData;
use crate::backend::{Backends, WindowBackend};
use crate::event::InputPosition;
use crate::geometry::Rect;
use vstd::prelude::*;

verus! {

/// Whether a call reaches the system.
#[derive(Debug, Clone, Copy, PartialEq, Eq, Structural)]
pub enum User32Gate {
    Original,
    Swallow,
}

/// Calls of the game are swallowed while the overlay is interactive.
pub open spec fn gated(passthrough: bool, interactive: bool) -> User32Gate {
    if passthrough || !interactive {
        User32Gate::Original
    } else {
        User32Gate::Swallow
    }
}

/// Whether the capture of the mouse reaches the system.
pub fn capture_gate(passthrough: bool, interactive: bool) -> (gate: User32Gate)
    ensures
        gate == gated(passthrough, interactive),
{
    if passthrough || !interactive {
        User32Gate::Original
    } else {
        User32Gate::Swallow
    }
}

/// Whether a flashing window or a gamma ramp reaches the system.
pub fn flash_gamma_gate(interactive: bool) -> (gate: User32Gate)
    ensures
        gate == gated(false, interactive),
{
    if interactive {
        User32Gate::Swallow
    } else {
        User32Gate::Original
    }
}

/// Whether the registration of a notification reaches the system: it always
/// does.
pub fn register_device_notification_gate(_interactive: bool) -> (gate: User32Gate)
    ensures
        gate == User32Gate::Original,
{
    User32Gate::Original
}

/// Whether the end of a notification reaches the system.
pub fn unregister_device_notification_gate(interactive: bool) -> (gate: User32Gate)
    ensures
        gate == gated(false, interactive),
{
    if interactive {
        User32Gate::Swallow
    } else {
        User32Gate::Original
    }
}

/// Whether a question about raw input devices reaches the system: it always
/// does.
pub fn raw_query_gate(_interactive: bool) -> (gate: User32Gate)
    ensures
        gate == User32Gate::Original,
{
    User32Gate::Original
}

/// Whether another input context reaches the system.
pub fn imm_associate_gate(passthrough: bool, interactive: bool) -> (gate: User32Gate)
    ensures
        gate == gated(passthrough, interactive),
{
    if passthrough || !interactive {
        User32Gate::Original
    } else {
        User32Gate::Swallow
    }
}

pub const HID_USAGE_PAGE_GENERIC: u16 = 1;

pub const HID_USAGE_GENERIC_MOUSE: u16 = 2;

pub const RIDEV_EXCLUDE: u32 = 0x10;

pub const RIDEV_NOLEGACY: u32 = 0x30;

pub const RIDEV_CAPTUREMOUSE: u32 = 0x200;

/// Whether all bits of a flag are set.
pub open spec fn has(flags: u32, flag: u32) -> bool {
    flags & flag == flag
}

/// Whether raw input of the mouse is asked for in a way that keeps it from
/// others.
pub open spec fn exclusive(usage_page: u16, usage: u16, flags: u32) -> bool {
    usage_page == HID_USAGE_PAGE_GENERIC && usage == HID_USAGE_GENERIC_MOUSE && (has(
        flags,
        RIDEV_NOLEGACY,
    ) || has(flags, RIDEV_CAPTUREMOUSE) || has(flags, RIDEV_EXCLUDE))
}

/// The flags that keep raw input of the mouse from others.
pub open spec fn exclusive_mask() -> u32 {
    RIDEV_NOLEGACY | RIDEV_CAPTUREMOUSE | RIDEV_EXCLUDE
}

/// The flags that a device is registered with.
pub open spec fn register_flags(
    usage_page: u16,
    usage: u16,
    flags: u32,
    interactive: bool,
    passthrough: bool,
) -> u32 {
    if !passthrough && interactive && exclusive(usage_page, usage, flags) {
        flags & !exclusive_mask()
    } else {
        flags
    }
}

/// The flags that keep raw input of the mouse from others.
pub fn exclusive_raw_mouse_flag_mask() -> (mask: u32)
    ensures
        mask == exclusive_mask(),
{
    RIDEV_NOLEGACY | RIDEV_CAPTUREMOUSE | RIDEV_EXCLUDE
}

/// Whether raw input of the mouse is asked for in a way that keeps it from
/// others.
pub fn is_exclusive_raw_mouse(usage_page: u16, usage: u16, flags: u32) -> (is_exclusive: bool)
    ensures
        is_exclusive == exclusive(usage_page, usage, flags),
{
    usage_page == HID_USAGE_PAGE_GENERIC && usage == HID_USAGE_GENERIC_MOUSE && (flags
        & RIDEV_NOLEGACY == RIDEV_NOLEGACY || flags & RIDEV_CAPTUREMOUSE == RIDEV_CAPTUREMOUSE
        || flags & RIDEV_EXCLUDE == RIDEV_EXCLUDE)
}

/// The flags that a device is registered with.
pub fn raw_register_flags_for_call(
    usage_page: u16,
    usage: u16,
    flags: u32,
    interactive: bool,
    passthrough: bool,
) -> (passed: u32)
    ensures
        passed == register_flags(usage_page, usage, flags, interactive, passthrough),
{
    if passthrough || !interactive || !is_exclusive_raw_mouse(usage_page, usage, flags) {
        flags
    } else {
        flags & !exclusive_raw_mouse_flag_mask()
    }
}

/// A raw input device that the game registers.
#[derive(Debug, Clone, Copy, PartialEq, Eq, Structural)]
pub struct RawDevice {
    pub usage_page: u16,
    pub usage: u16,
    pub flags: u32,
    pub target: usize,
}

/// Devices as they are registered while the overlay is interactive.
pub open spec fn registered(devices: Seq<RawDevice>) -> Seq<RawDevice> {
    devices.map_values(
        |device: RawDevice|
            RawDevice {
                flags: register_flags(device.usage_page, device.usage, device.flags, true, false),
                ..device
            },
    )
}

/// The devices that are registered in place of those of the game; none where
/// the game's own call passes as it is. `sized` tells whether the game speaks of
/// devices of the known size.
pub fn filtered_devices(
    devices: &Vec<RawDevice>,
    sized: bool,
    interactive: bool,
    passthrough: bool,
) -> (filtered: Option<Vec<RawDevice>>)
    ensures
        filtered is Some <==> !passthrough && interactive && sized && devices@.len() > 0,
        filtered matches Some(filtered) ==> filtered@ == registered(devices@),
{
    if passthrough || !interactive || devices.len() == 0 || !sized {
        return None;
    }
    let mut filtered: Vec<RawDevice> = Vec::new();
    let mut i: usize = 0;
    while i < devices.len()
        invariant
            i <= devices@.len(),
            filtered@.len() == i,
            forall|k: int| 0 <= k < i ==> filtered@[k] == registered(devices@)[k],
        decreases devices@.len() - i,
    {
        let device = devices[i];
        let flags: u32 = raw_register_flags_for_call(
            device.usage_page,
            device.usage,
            device.flags,
            true,
            false,
        );
        filtered.push(RawDevice { flags, ..device });
        i += 1;
    }
    assert(filtered@ =~= registered(devices@));
    Some(filtered)
}

/// Whether the overlay itself is calling.
#[derive(Debug, Clone, Copy, PartialEq, Eq, Structural)]
pub struct CursorPassthrough {
    pub on: bool,
}

impl CursorPassthrough {
    /// Whether the overlay itself is calling.
    pub fn cursor_passthrough(&self) -> (passthrough: bool)
        ensures
            passthrough == self.on,
    {
        self.on
    }
}

/// Runs `f` as a call of the overlay itself.
pub fn with_cursor_passthrough<R>(
    state: &mut CursorPassthrough,
    f: impl FnOnce(CursorPassthrough) -> R,
) -> (result: R)
    requires
        call_requires(f, (CursorPassthrough { on: true },)),
    ensures
        call_ensures(f, (CursorPassthrough { on: true },), result),
        !final(state).on,
{
    state.on = true;
    let result = f(*state);
    state.on = false;
    result
}

/// The window id of a handle.
pub open spec fn window_id(hwnd: usize) -> u32 {
    hwnd as u32
}

/// What the active window keeps while its input is blocked. While the overlay
/// reads messages, nothing is kept from it.
pub open spec fn active_data(
    windows: Map<u32, WindowBackend>,
    active: usize,
    message_reading: bool,
) -> Option<InputBlockData> {
    if active != 0 && !message_reading {
        crate::backend::blocking_at(windows, window_id(active))
    } else {
        None
    }
}

/// Whether the input of the foreground window is blocked.
pub open spec fn foreground_blocked(windows: Map<u32, WindowBackend>, foreground: usize) -> bool {
    foreground != 0 && crate::backend::blocking_at(windows, window_id(foreground)) is Some
}

/// The active window, if its input can be kept from the game.
pub fn active_hwnd_can_block(active: usize, message_reading: bool) -> (hwnd: Option<usize>)
    ensures
        hwnd == if active != 0 && !message_reading {
            Some(active)
        } else {
            None
        },
{
    if active != 0 && !message_reading {
        Some(active)
    } else {
        None
    }
}

/// What the active window keeps while its input is blocked.
pub fn active_hwnd_data(backends: &Backends, active: usize, message_reading: bool) -> (data: Option<
    InputBlockData,
>)
    ensures
        data == active_data(backends@, active, message_reading),
{
    match active_hwnd_can_block(active, message_reading) {
        Some(hwnd) => backends.blocking_data(hwnd as u32),
        None => None,
    }
}

/// Whether any window has its input blocked.
pub fn any_interactive(backends: &Backends) -> (interactive: bool)
    ensures
        interactive == crate::backend::any_blocked(backends@),
{
    backends.first_blocked().is_some()
}

/// Whether the input of the foreground window is blocked.
pub fn foreground_hwnd_input_blocked(backends: &Backends, foreground: usize) -> (blocked: bool)
    ensures
        blocked == foreground_blocked(backends@, foreground),
{
    foreground != 0 && backends.blocking_data(foreground as u32).is_some()
}

/// Whether the input of the active window is blocked.
pub fn active_hwnd_input_blocked(backends: &Backends, active: usize, message_reading: bool) -> (
blocked: bool)
    ensures
        blocked == (active_data(backends@, active, message_reading) is Some),
{
    active_hwnd_data(backends, active, message_reading).is_some()
}

/// The game confines the cursor to an area, or no longer does. While the input
/// of the active window is blocked the area is kept for later.
pub fn clip_cursor(
    backends: &mut Backends,
    active: usize,
    message_reading: bool,
    rect: Option<Rect>,
    call: impl FnOnce() -> i32,
) -> (answer: i32)
    requires
        active_data(old(backends)@, active, message_reading) is None ==> call_requires(call, ()),
    ensures
        match active_data(old(backends)@, active, message_reading) {
            Some(data) => answer == 1 && final(backends)@ == crate::backend::with_blocking(
                old(backends)@,
                window_id(active),
                InputBlockData { clip_cursor: rect, ..data },
            ),
            None => call_ensures(call, (), answer) && final(backends)@ == old(backends)@,
        },
{
    if let Some(data) = active_hwnd_data(backends, active, message_reading) {
        let mut kept = data;
        kept.clip_cursor = rect;
        backends.set_blocking_data(active as u32, kept);
        return 1;
    }
    call()
}

/// The game asks which area the cursor is confined to. While the input of the
/// active window is blocked it gets the area that is kept for later, if there
/// is one.
pub fn get_clip_cursor(
    backends: &Backends,
    active: usize,
    message_reading: bool,
    call: impl FnOnce() -> (i32, Option<Rect>),
) -> (outcome: (i32, Option<Rect>))
    requires
        !(active_data(backends@, active, message_reading) matches Some(data)
            && data.clip_cursor is Some) ==> call_requires(call, ()),
    ensures
        match active_data(backends@, active, message_reading) {
            Some(data) if data.clip_cursor is Some => outcome.0 == 1 && outcome.1
                == data.clip_cursor,
            _ => call_ensures(call, (), outcome),
        },
{
    if let Some(data) = active_hwnd_data(backends, active, message_reading) {
        if data.clip_cursor.is_some() {
            return (1, data.clip_cursor);
        }
    }
    call()
}

/// The game moves the cursor. While the input of the foreground window is
/// blocked nothing happens, successfully.
pub fn set_cursor_pos(backends: &Backends, foreground: usize, call: impl FnOnce() -> i32) -> (answer:
    i32)
    requires
        !foreground_blocked(backends@, foreground) ==> call_requires(call, ()),
    ensures
        foreground_blocked(backends@, foreground) ==> answer == 1,
        !foreground_blocked(backends@, foreground) ==> call_ensures(call, (), answer),
{
    if foreground_hwnd_input_blocked(backends, foreground) {
        return 1;
    }
    call()
}

/// The game asks where the cursor is; `place` is what stands where the position
/// goes, if there is such a place. While the input of the foreground window is
/// blocked the cursor stands still.
pub fn get_cursor_pos(
    backends: &Backends,
    foreground: usize,
    place: Option<InputPosition>,
    call: impl FnOnce(Option<InputPosition>) -> (i32, Option<InputPosition>),
) -> (outcome: (i32, Option<InputPosition>))
    requires
        !foreground_blocked(backends@, foreground) ==> call_requires(call, (place,)),
    ensures
        foreground_blocked(backends@, foreground) ==> outcome.0 == 1 && outcome.1 == if place
            is Some {
            Some(InputPosition { x: 0, y: 0 })
        } else {
            None
        },
        !foreground_blocked(backends@, foreground) ==> call_ensures(call, (place,), outcome),
{
    if foreground_hwnd_input_blocked(backends, foreground) {
        let still = match place {
            Some(_) => Some(InputPosition { x: 0, y: 0 }),
            None => None,
        };
        return (1, still);
    }
    call(place)
}

/// The game asks for a key as it is now. While the input of the foreground
/// window is blocked the key is up.
pub fn get_async_key_state(backends: &Backends, foreground: usize, call: impl FnOnce() -> i16) -> (
state: i16)
    requires
        !foreground_blocked(backends@, foreground) ==> call_requires(call, ()),
    ensures
        foreground_blocked(backends@, foreground) ==> state == 0,
        !foreground_blocked(backends@, foreground) ==> call_ensures(call, (), state),
{
    if foreground_hwnd_input_blocked(backends, foreground) {
        return 0;
    }
    call()
}

/// The game asks for a key. While the input of the active window is blocked the
/// key is up.
pub fn get_key_state(
    backends: &Backends,
    active: usize,
    message_reading: bool,
    call: impl FnOnce() -> i16,
) -> (state: i16)
    requires
        active_data(backends@, active, message_reading) is None ==> call_requires(call, ()),
    ensures
        active_data(backends@, active, message_reading) is Some ==> state == 0,
        active_data(backends@, active, message_reading) is None ==> call_ensures(call, (), state),
{
    if active_hwnd_input_blocked(backends, active, message_reading) {
        return 0;
    }
    call()
}

/// The game asks for all keys. While the input of the active window is blocked
/// they are up; else the system answers, and the keys are what it tells.
pub fn get_keyboard_state(
    backends: &Backends,
    active: usize,
    message_reading: bool,
    call: impl FnOnce() -> (i32, [u8; 256]),
) -> (outcome: (i32, [u8; 256]))
    requires
        active_data(backends@, active, message_reading) is None ==> call_requires(call, ()),
    ensures
        active_data(backends@, active, message_reading) is Some ==> outcome.0 == 1 && (forall|
            i: int,
        |
            0 <= i < 256 ==> outcome.1@[i] == 0),
        active_data(backends@, active, message_reading) is None ==> call_ensures(
            call,
            (),
            outcome,
        ),
{
    if active_hwnd_input_blocked(backends, active, message_reading) {
        let keys: [u8; 256] = [0; 256];
        return (1, keys);
    }
    call()
}

/// Asks for the header of a raw input.
pub const RID_HEADER: u32 = 0x1000_0005;

/// Asks for a whole raw input.
pub const RID_INPUT: u32 = 0x1000_0003;

/// Raw input of a device that is neither a mouse nor a keyboard.
pub const RIM_TYPEHID: u32 = 2;

/// The reply to a question for raw input.
#[derive(Debug, Clone, Copy, PartialEq, Eq)]
pub struct RawReply {
    /// What is returned.
    pub returned: u32,
    /// What is written where the size goes.
    pub size: Option<u32>,
    /// The type and the size in the header that is written where the data goes;
    /// everything else of it is zero.
    pub header: Option<(u32, u32)>,
}

/// How many bytes a question is answered with. The sizes of a header and of a
/// whole input depend on the machine.
pub open spec fn raw_size(command: u32, header_size: u32, input_size: u32) -> u32 {
    if command == RID_HEADER {
        header_size
    } else if command == RID_INPUT {
        input_size
    } else {
        0
    }
}

/// The reply to a question for raw input while input is blocked: an empty input
/// of an unknown device, with the size that it would have. Without a place for
/// the data only the size is told.
pub fn blocked_raw_input(
    command: u32,
    header_size: u32,
    input_size: u32,
    size_place: bool,
    data_place: bool,
) -> (reply: RawReply)
    ensures
        reply.size == if size_place {
            Some(raw_size(command, header_size, input_size))
        } else {
            None
        },
        reply.returned == if data_place {
            raw_size(command, header_size, input_size)
        } else {
            0
        },
        reply.header == if data_place && (command == RID_HEADER || command == RID_INPUT) {
            Some((RIM_TYPEHID, raw_size(command, header_size, input_size)))
        } else {
            None
        },
{
    let data_size: u32 = match command {
        RID_HEADER => header_size,
        RID_INPUT => input_size,
        _ => 0,
    };
    let size = if size_place {
        Some(data_size)
    } else {
        None
    };
    if !data_place {
        return RawReply { returned: 0, size, header: None };
    }
    let header = match command {
        RID_HEADER => Some((RIM_TYPEHID, data_size)),
        RID_INPUT => Some((RIM_TYPEHID, data_size)),
        _ => None,
    };
    RawReply { returned: data_size, size, header }
}

/// The game takes buffered raw input: how much it got, and the size that it is
/// told. While the input of the foreground window is blocked there is none.
pub fn get_raw_input_buffer(
    backends: &Backends,
    foreground: usize,
    call: impl FnOnce() -> (u32, u32),
) -> (outcome: (u32, u32))
    requires
        !foreground_blocked(backends@, foreground) ==> call_requires(call, ()),
    ensures
        foreground_blocked(backends@, foreground) ==> outcome == (0u32, 0u32),
        !foreground_blocked(backends@, foreground) ==> call_ensures(call, (), outcome),
{
    if foreground_hwnd_input_blocked(backends, foreground) {
        return (0, 0);
    }
    call()
}

/// Whether the game's cursor is kept for later: some window has its input
/// blocked, and it is not the overlay that calls.
pub open spec fn cursor_kept(windows: Map<u32, WindowBackend>, passthrough: bool) -> bool {
    !passthrough && crate::backend::any_blocked(windows)
}

/// Whether `id` is a window whose input is blocked, and `data` what it keeps.
pub open spec fn keeps(windows: Map<u32, WindowBackend>, id: u32, data: InputBlockData) -> bool {
    crate::backend::blocking_at(windows, id) == Some(data)
}

/// The game shows or hides its cursor. While input is blocked only the count
/// that is kept for later moves.
pub fn show_cursor(
    backends: &mut Backends,
    passthrough: bool,
    show: bool,
    call: impl FnOnce() -> i32,
) -> (count: i32)
    requires
        !cursor_kept(old(backends)@, passthrough) ==> call_requires(call, ()),
        forall|id: u32, data: InputBlockData| #[trigger]
            keeps(old(backends)@, id, data) ==> i32::MIN < data.show_count < i32::MAX,
    ensures
        !cursor_kept(old(backends)@, passthrough) ==> call_ensures(call, (), count) && final(
            backends)@ == old(backends)@,
        cursor_kept(old(backends)@, passthrough) ==> exists|id: u32, data: InputBlockData|
            #[trigger]
            keeps(old(backends)@, id, data) && count == data.show_count + (if show {
                1int
            } else {
                -1int
            }) && final(backends)@ == crate::backend::with_blocking(
                old(backends)@,
                id,
                InputBlockData { show_count: count, ..data },
            ),
{
    if !passthrough {
        if let Some(id) = backends.first_blocked() {
            if let Some(data) = backends.blocking_data(id) {
                assert(keeps(backends@, id, data));
                let mut kept = data;
                let count: i32 = kept.apply_show_cursor(show);
                backends.set_blocking_data(id, kept);
                return count;
            }
        }
    }
    call()
}

/// The game sets its cursor. While input is blocked it is kept for later, and
/// the game gets the one back that was kept.
pub fn set_cursor(
    backends: &mut Backends,
    passthrough: bool,
    cursor: isize,
    call: impl FnOnce() -> isize,
) -> (previous: isize)
    requires
        !cursor_kept(old(backends)@, passthrough) ==> call_requires(call, ()),
    ensures
        !cursor_kept(old(backends)@, passthrough) ==> call_ensures(call, (), previous) && final(
            backends)@ == old(backends)@,
        cursor_kept(old(backends)@, passthrough) ==> exists|id: u32, data: InputBlockData|
            #[trigger]
            keeps(old(backends)@, id, data) && previous == data.saved_cursor && final(backends)@
                == crate::backend::with_blocking(
                old(backends)@,
                id,
                InputBlockData { saved_cursor: cursor, ..data },
            ),
{
    if !passthrough {
        if let Some(id) = backends.first_blocked() {
            if let Some(data) = backends.blocking_data(id) {
                assert(keeps(backends@, id, data));
                let mut kept = data;
                let previous: isize = kept.apply_set_cursor(cursor);
                backends.set_blocking_data(id, kept);
                return previous;
            }
        }
    }
    call()
}

/// The game asks for its cursor. While input is blocked it gets the one that is
/// kept.
pub fn get_cursor(backends: &Backends, passthrough: bool, call: impl FnOnce() -> isize) -> (cursor:
    isize)
    requires
        !cursor_kept(backends@, passthrough) ==> call_requires(call, ()),
    ensures
        !cursor_kept(backends@, passthrough) ==> call_ensures(call, (), cursor),
        cursor_kept(backends@, passthrough) ==> exists|id: u32, data: InputBlockData| #[trigger]
            keeps(backends@, id, data) && cursor == data.saved_cursor,
{
    if !passthrough {
        if let Some(id) = backends.first_blocked() {
            if let Some(data) = backends.blocking_data(id) {
                assert(keeps(backends@, id, data));
                return data.saved_cursor;
            }
        }
    }
    call()
}

pub const CURSOR_SHOWING: u32 = 1;

pub const CURSOR_SUPPRESSED: u32 = 2;

/// What the system tells of the cursor.
#[derive(Debug, Clone, Copy, PartialEq, Eq, Structural)]
pub struct CursorInfo {
    pub flags: u32,
    pub cursor: isize,
    pub position: InputPosition,
}

/// What the game gets to know of the cursor from what is kept for later.
pub open spec fn masked(info: CursorInfo, data: InputBlockData) -> CursorInfo {
    CursorInfo {
        flags: if info.flags == CURSOR_SUPPRESSED {
            CURSOR_SUPPRESSED
        } else if data.show_count >= 0 {
            CURSOR_SHOWING
        } else {
            0
        },
        cursor: data.saved_cursor,
        position: InputPosition { x: 0, y: 0 },
    }
}

/// Makes what the system tells of the cursor what the game gets to know.
pub fn mask_cursor_info(info: &mut CursorInfo, data: &InputBlockData)
    ensures
        *final(info) == masked(*old(info), *data),
{
    info.position = InputPosition { x: 0, y: 0 };
    if info.flags != CURSOR_SUPPRESSED {
        info.flags = if data.show_count >= 0 {
            CURSOR_SHOWING
        } else {
            0
        };
    }
    info.cursor = data.saved_cursor;
}

/// What the game gets to know of the cursor, after the system has told; there
/// may be no place for it.
pub fn after_get_cursor_info(backends: &Backends, told: Option<CursorInfo>) -> (info: Option<
    CursorInfo,
>)
    ensures
        told is None || !crate::backend::any_blocked(backends@) ==> info == told,
        told is Some && crate::backend::any_blocked(backends@) ==> exists|
            id: u32,
            data: InputBlockData,
        | #[trigger]
            keeps(backends@, id, data) && info == Some(masked(told->0, data)),
{
    match told {
        None => None,
        Some(told) => {
            let mut info = told;
            if let Some(id) = backends.first_blocked() {
                if let Some(data) = backends.blocking_data(id) {
                    assert(keeps(backends@, id, data));
                    mask_cursor_info(&mut info, &data);
                }
            }
            Some(info)
        },
    }
}

/// A call that is swallowed while the overlay is interactive: `done` is what the
/// game gets then.
pub fn swallowed<T>(gate: User32Gate, done: T, call: impl FnOnce() -> T) -> (answer: T)
    requires
        gate == User32Gate::Original ==> call_requires(call, ()),
    ensures
        gate == User32Gate::Swallow ==> answer == done,
        gate == User32Gate::Original ==> call_ensures(call, (), answer),
{
    match gate {
        User32Gate::Swallow => done,
        User32Gate::Original => call(),
    }
}

/// The functions that are detoured.
#[derive(Debug, Clone, Copy, PartialEq, Eq, Structural)]
pub enum Site {
    ClipCursor,
    SetCursorPos,
    GetClipCursor,
    GetCursorPos,
    GetPhysicalCursorPos,
    GetAsyncKeyState,
    GetKeyState,
    GetKeyboardState,
    GetRawInputData,
    GetRawInputBuffer,
    ShowCursor,
    SetCursor,
    GetCursor,
    GetCursorInfo,
    SetCapture,
    ReleaseCapture,
    FlashWindow,
    FlashWindowEx,
    SetDeviceGammaRamp,
    RegisterDeviceNotificationA,
    RegisterDeviceNotificationW,
    UnregisterDeviceNotification,
    RegisterRawInputDevices,
    GetRegisteredRawInputDevices,
    GetRawInputDeviceList,
    GetRawInputDeviceInfoA,
    GetRawInputDeviceInfoW,
    ImmAssociateContext,
}

/// The functions without whose detours the overlay cannot work, in the order in
/// which they are detoured.
pub open spec fn needed() -> Seq<Site> {
    seq![
        Site::ClipCursor,
        Site::SetCursorPos,
        Site::GetClipCursor,
        Site::GetCursorPos,
        Site::GetPhysicalCursorPos,
        Site::GetAsyncKeyState,
        Site::GetKeyState,
        Site::GetKeyboardState,
        Site::GetRawInputData,
        Site::GetRawInputBuffer,
    ]
}

/// The functions whose detours may fail, in the order in which they are tried
/// after the others.
pub open spec fn optional() -> Seq<Site> {
    seq![
        Site::ShowCursor,
        Site::SetCursor,
        Site::GetCursor,
        Site::GetCursorInfo,
        Site::SetCapture,
        Site::ReleaseCapture,
        Site::FlashWindow,
        Site::FlashWindowEx,
        Site::SetDeviceGammaRamp,
        Site::RegisterDeviceNotificationA,
        Site::RegisterDeviceNotificationW,
        Site::UnregisterDeviceNotification,
        Site::RegisterRawInputDevices,
        Site::GetRegisteredRawInputDevices,
        Site::GetRawInputDeviceList,
        Site::GetRawInputDeviceInfoA,
        Site::GetRawInputDeviceInfoW,
        Site::ImmAssociateContext,
    ]
}

/// The functions without whose detours the overlay cannot work.
pub fn needed_sites() -> (sites: Vec<Site>)
    ensures
        sites@ == needed(),
{
    let sites = vec![
        Site::ClipCursor,
        Site::SetCursorPos,
        Site::GetClipCursor,
        Site::GetCursorPos,
        Site::GetPhysicalCursorPos,
        Site::GetAsyncKeyState,
        Site::GetKeyState,
        Site::GetKeyboardState,
        Site::GetRawInputData,
        Site::GetRawInputBuffer,
    ];
    assert(sites@ =~= needed());
    sites
}

/// The functions whose detours may fail.
pub fn optional_sites() -> (sites: Vec<Site>)
    ensures
        sites@ == optional(),
{
    let sites = vec![
        Site::ShowCursor,
        Site::SetCursor,
        Site::GetCursor,
        Site::GetCursorInfo,
        Site::SetCapture,
        Site::ReleaseCapture,
        Site::FlashWindow,
        Site::FlashWindowEx,
        Site::SetDeviceGammaRamp,
        Site::RegisterDeviceNotificationA,
        Site::RegisterDeviceNotificationW,
        Site::UnregisterDeviceNotification,
        Site::RegisterRawInputDevices,
        Site::GetRegisteredRawInputDevices,
        Site::GetRawInputDeviceList,
        Site::GetRawInputDeviceInfoA,
        Site::GetRawInputDeviceInfoW,
        Site::ImmAssociateContext,
    ];
    assert(sites@ =~= optional());
    sites
}

/// The real functions behind the detours, in the order of `needed` and
/// `optional`.
#[derive(Debug)]
pub struct Hook {
    pub needed: Vec<usize>,
    pub optional: Vec<Option<usize>>,
}

/// Whether the first `n` of the needed functions were detoured.
pub open spec fn detoured<E, F: Fn(Site) -> Result<usize, E>>(
    attach: F,
    originals: Seq<usize>,
    n: int,
) -> bool {
    forall|i: int|
        0 <= i < n ==> call_ensures(
            attach,
            (needed()[i],),
            Ok::<usize, E>(#[trigger] originals[i]),
        )
}

/// Whether an optional function was tried.
pub open spec fn tried<E, F: Fn(Site) -> Result<usize, E>>(
    attach: F,
    site: Site,
    original: Option<usize>,
) -> bool {
    match original {
        Some(original) => call_ensures(attach, (site,), Ok::<usize, E>(original)),
        None => exists|error: E| #[trigger]
            call_ensures(attach, (site,), Err::<usize, E>(error)),
    }
}

/// Whether all functions were detoured or tried.
pub open spec fn installed<E, F: Fn(Site) -> Result<usize, E>>(attach: F, hook: Hook) -> bool {
    &&& hook.needed@.len() == needed().len()
    &&& detoured(attach, hook.needed@, needed().len() as int)
    &&& hook.optional@.len() == optional().len()
    &&& forall|i: int|
        0 <= i < optional().len() ==> tried(attach, optional()[i], #[trigger] hook.optional@[i])
}

/// Whether detouring stopped at a needed function with an error.
pub open spec fn stopped<E, F: Fn(Site) -> Result<usize, E>>(
    attach: F,
    originals: Seq<usize>,
    error: E,
) -> bool {
    &&& originals.len() < needed().len()
    &&& detoured(attach, originals, originals.len() as int)
    &&& call_ensures(attach, (needed()[originals.len() as int],), Err::<usize, E>(error))
}

/// Whether detouring stopped with an error at one of the needed functions, after
/// those before it were detoured.
pub open spec fn ended<E, F: Fn(Site) -> Result<usize, E>>(attach: F, error: E) -> bool {
    exists|originals: Seq<usize>| #[trigger] stopped(attach, originals, error)
}

/// Whether the next needed function can be detoured after some were, and the
/// others after all were.
pub open spec fn may_detour<E, F: Fn(Site) -> Result<usize, E>>(
    attach: F,
    originals: Seq<usize>,
) -> bool {
    if originals.len() < needed().len() {
        call_requires(attach, (needed()[originals.len() as int],))
    } else {
        forall|k: int|
            0 <= k < optional().len() ==> call_requires(attach, (#[trigger] optional()[k],))
    }
}

/// Whether `originals` are what detouring the first needed functions came to.
pub open spec fn reached<E, F: Fn(Site) -> Result<usize, E>>(
    attach: F,
    originals: Seq<usize>,
) -> bool {
    originals.len() <= needed().len() && detoured(attach, originals, originals.len() as int)
}

/// Detours the needed functions, until one cannot be detoured.
fn attach_needed<E, F: Fn(Site) -> Result<usize, E>>(attach: &F) -> (done: Result<Vec<usize>, E>)
    requires
        forall|originals: Seq<usize>| #[trigger]
            reached(*attach, originals) ==> may_detour(*attach, originals),
    ensures
        match done {
            Ok(originals) => originals@.len() == needed().len() && detoured(
                *attach,
                originals@,
                needed().len() as int,
            ),
            Err(error) => ended(*attach, error),
        },
{
    let sites = needed_sites();
    let mut originals: Vec<usize> = Vec::new();
    let mut i: usize = 0;
    while i < sites.len()
        invariant
            i <= sites@.len(),
            sites@ == needed(),
            originals@.len() == i,
            detoured(*attach, originals@, i as int),
            forall|originals: Seq<usize>| #[trigger]
                reached(*attach, originals) ==> may_detour(*attach, originals),
        decreases sites@.len() - i,
    {
        assert(reached(*attach, originals@));
        match attach(sites[i]) {
            Ok(original) => {
                let ghost before = originals@;
                originals.push(original);
                assert forall|k: int| 0 <= k < i + 1 implies call_ensures(
                    *attach,
                    (needed()[k],),
                    Ok::<usize, E>(#[trigger] originals@[k]),
                ) by {
                    if k < i {
                        assert(originals@[k] == before[k]);
                    }
                }
            },
            Err(error) => {
                assert(stopped(*attach, originals@, error));
                return Err(error);
            },
        }
        i += 1;
    }
    Ok(originals)
}

/// Tries to detour the other functions.
fn attach_optional<E, F: Fn(Site) -> Result<usize, E>>(attach: &F) -> (tries: Vec<Option<usize>>)
    requires
        forall|k: int|
            0 <= k < optional().len() ==> call_requires(*attach, (#[trigger] optional()[k],)),
    ensures
        tries@.len() == optional().len(),
        forall|i: int|
            0 <= i < optional().len() ==> tried(*attach, optional()[i], #[trigger] tries@[i]),
{
    let others = optional_sites();
    let mut tries: Vec<Option<usize>> = Vec::new();
    let mut k: usize = 0;
    while k < others.len()
        invariant
            k <= others@.len(),
            others@ == optional(),
            tries@.len() == k,
            forall|j: int| 0 <= j < k ==> tried(*attach, optional()[j], #[trigger] tries@[j]),
            forall|j: int|
                0 <= j < optional().len() ==> call_requires(*attach, (#[trigger] optional()[j],)),
        decreases others@.len() - k,
    {
        assert(others@[k as int] == optional()[k as int]);
        match attach(others[k]) {
            Ok(original) => tries.push(Some(original)),
            Err(error) => {
                assert(call_ensures(*attach, (others@[k as int],), Err::<usize, E>(error)));
                tries.push(None);
            },
        }
        k += 1;
    }
    tries
}

/// Detours the functions, once. The first needed one that cannot be detoured
/// ends it with its error, and nothing is remembered.
pub fn hook<E, F: Fn(Site) -> Result<usize, E>>(latched: &mut Option<Hook>, attach: F) -> (done:
    Result<(), E>)
    requires
        *old(latched) is None ==> forall|originals: Seq<usize>| #[trigger]
            reached(attach, originals) ==> may_detour(attach, originals),
    ensures
        *old(latched) is Some ==> *final(latched) == *old(latched) && done == Ok::<(), E>(()),
        *old(latched) is None && done is Ok ==> *final(latched) is Some && installed(
            attach,
            (*final(latched))->0,
        ),
        done matches Err(error) ==> *final(latched) is None && ended(attach, error),
{
    if latched.is_some() {
        return Ok(());
    }
    match attach_needed(&attach) {
        Err(error) => Err(error),
        Ok(needed) => {
            assert(reached(attach, needed@));
            let optional = attach_optional(&attach);
            *latched = Some(Hook { needed, optional });
            Ok(())
        },
    }
}

/// While input is blocked the game does not learn from the cursor whether the
/// overlay shows it, nor where it is: what it learns depends only on what it set
/// itself.
pub proof fn law_cursor_of_the_overlay_is_hidden(
    one: CursorInfo,
    other: CursorInfo,
    data: InputBlockData,
)
    requires
        (one.flags == CURSOR_SUPPRESSED) == (other.flags == CURSOR_SUPPRESSED),
    ensures
        masked(one, data) == masked(other, data),
{
}

/// A device is never registered exclusively while the overlay is interactive,
/// and registering twice changes nothing more.
pub proof fn law_no_exclusive_mouse_while_interactive(usage_page: u16, usage: u16, flags: u32)
    ensures
        !exclusive(
            usage_page,
            usage,
            register_flags(usage_page, usage, flags, true, false),
        ),
        register_flags(
            usage_page,
            usage,
            register_flags(usage_page, usage, flags, true, false),
            true,
            false,
        ) == register_flags(usage_page, usage, flags, true, false),
{
    assert((flags & !(0x30u32 | 0x200u32 | 0x10u32)) & 0x30u32 == 0 && (flags & !(0x30u32 | 0x200u32
        | 0x10u32)) & 0x200u32 == 0 && (flags & !(0x30u32 | 0x200u32 | 0x10u32)) & 0x10u32 == 0)
        by (bit_vector);
}

/// The capture of the mouse and another input context are kept from the system
/// exactly while the overlay is interactive and the game calls; flashing and
/// the end of a notification do not ask who calls; a new notification and a
/// question always pass.
pub proof fn law_calls_are_swallowed_while_interactive(
    passthrough: bool,
    interactive: bool,
    capture: User32Gate,
    flash: User32Gate,
    register: User32Gate,
    unregister: User32Gate,
    query: User32Gate,
    imm: User32Gate,
)
    requires
        call_ensures(capture_gate, (passthrough, interactive), capture),
        call_ensures(flash_gamma_gate, (interactive,), flash),
        call_ensures(register_device_notification_gate, (interactive,), register),
        call_ensures(unregister_device_notification_gate, (interactive,), unregister),
        call_ensures(raw_query_gate, (interactive,), query),
        call_ensures(imm_associate_gate, (passthrough, interactive), imm),
    ensures
        capture is Swallow <==> (interactive && !passthrough),
        imm is Swallow <==> (interactive && !passthrough),
        flash is Swallow <==> interactive,
        unregister is Swallow <==> interactive,
        register is Original && query is Original,
{
}

/// A call that is swallowed gives what it should; one that is not gives what
/// the system does.
pub proof fn law_swallowed_call_is_not_made<T, F: FnOnce() -> T>(
    gate: User32Gate,
    done: T,
    call: F,
    answer: T,
)
    requires
        call_ensures(swallowed, (gate, done, call), answer),
    ensures
        gate is Swallow ==> answer == done,
        gate is Original ==> call_ensures(call, (), answer),
{
}

/// Raw input of the mouse, the second usage of the first page, is asked for
/// exclusively with the fifth bit or with the tenth.
pub proof fn law_mouse_is_taken_exclusively(
    usage_page: u16,
    usage: u16,
    flags: u32,
    is_exclusive: bool,
    mask: u32,
)
    requires
        call_ensures(is_exclusive_raw_mouse, (usage_page, usage, flags), is_exclusive),
        call_ensures(exclusive_raw_mouse_flag_mask, (), mask),
    ensures
        mask == 0x230,
        is_exclusive <==> (usage_page == 1 && usage == 2 && (flags & 0x10 != 0 || flags & 0x200
            != 0)),
{
    assert((flags & 0x30 == 0x30 || flags & 0x200 == 0x200 || flags & 0x10 == 0x10) == (flags & 0x10
        != 0 || flags & 0x200 != 0) && 0x30u32 | 0x200 | 0x10 == 0x230) by (bit_vector);
}

/// While the overlay is interactive a game that asks for the mouse exclusively
/// is registered without the bits for it and with all its others; every other
/// registration passes as it is.
pub proof fn law_exclusive_bits_are_left_out(
    usage_page: u16,
    usage: u16,
    flags: u32,
    interactive: bool,
    passthrough: bool,
    passed: u32,
    is_exclusive: bool,
)
    requires
        call_ensures(
            raw_register_flags_for_call,
            (usage_page, usage, flags, interactive, passthrough),
            passed,
        ),
        call_ensures(is_exclusive_raw_mouse, (usage_page, usage, flags), is_exclusive),
    ensures
        interactive && !passthrough && is_exclusive ==> passed & 0x230 == 0 && passed & 0xFFFF_FDCF
            == flags & 0xFFFF_FDCF,
        !interactive || passthrough || !is_exclusive ==> passed == flags,
{
    assert((flags & !(0x30u32 | 0x200 | 0x10)) & 0x230 == 0 && (flags & !(0x30u32 | 0x200 | 0x10))
        & 0xFFFF_FDCF == flags & 0xFFFF_FDCF) by (bit_vector);
}

/// The devices that are registered in place of the game's are as many, each at
/// its place with its own usage and target, and with the flags that it would be
/// registered with alone.
pub proof fn law_devices_keep_their_places(
    devices: Vec<RawDevice>,
    sized: bool,
    interactive: bool,
    passthrough: bool,
    filtered: Option<Vec<RawDevice>>,
    k: int,
    passed: u32,
)
    requires
        call_ensures(filtered_devices, (&devices, sized, interactive, passthrough), filtered),
        0 <= k < devices@.len(),
        call_ensures(
            raw_register_flags_for_call,
            (devices@[k].usage_page, devices@[k].usage, devices@[k].flags, true, false),
            passed,
        ),
    ensures
        filtered is Some <==> (interactive && !passthrough && sized),
        filtered is Some ==> filtered->0@.len() == devices@.len() && filtered->0@[k].usage_page
            == devices@[k].usage_page && filtered->0@[k].usage == devices@[k].usage
            && filtered->0@[k].target == devices@[k].target && filtered->0@[k].flags == passed,
{
}

/// The overlay's own calls are known as such while they last, and no longer.
pub proof fn law_overlay_is_known_while_it_calls<R, F: FnOnce(CursorPassthrough) -> R>(
    state: &mut CursorPassthrough,
    f: F,
    result: R,
    inside: CursorPassthrough,
    during: bool,
    after: bool,
)
    requires
        call_ensures(with_cursor_passthrough, (state, f), result),
        call_ensures(CursorPassthrough::cursor_passthrough, (&inside,), during),
        inside.on,
        call_ensures(CursorPassthrough::cursor_passthrough, (final(state),), after),
    ensures
        during && !after,
        call_ensures(f, (inside,), result),
{
    assert(inside == CursorPassthrough { on: true });
}

/// The active window counts unless there is none or the overlay reads messages,
/// and its input is blocked exactly if it keeps data for later, which are the
/// data that are found. The foreground window counts whoever reads.
pub proof fn law_blocked_windows_keep_data(
    backends: Backends,
    hwnd: usize,
    message_reading: bool,
    counted: Option<usize>,
    data: Option<InputBlockData>,
    active: bool,
    foreground: bool,
    any: bool,
)
    requires
        call_ensures(active_hwnd_can_block, (hwnd, message_reading), counted),
        call_ensures(active_hwnd_data, (&backends, hwnd, message_reading), data),
        call_ensures(active_hwnd_input_blocked, (&backends, hwnd, message_reading), active),
        call_ensures(foreground_hwnd_input_blocked, (&backends, hwnd), foreground),
        call_ensures(any_interactive, (&backends,), any),
    ensures
        counted is Some <==> (hwnd != 0 && !message_reading),
        counted is Some ==> counted->0 == hwnd,
        data is Some <==> (counted is Some && backends@.contains_key(hwnd as u32)
            && backends@[hwnd as u32].proc.blocking_state is Some),
        data is Some ==> data == backends@[hwnd as u32].proc.blocking_state,
        active <==> data is Some,
        foreground <==> (hwnd != 0 && backends@.contains_key(hwnd as u32)
            && backends@[hwnd as u32].proc.blocking_state is Some),
        active ==> foreground,
        foreground ==> any,
        any ==> exists|id: u32| #[trigger]
            backends@.contains_key(id) && backends@[id].proc.blocking_state is Some,
{
}

/// While its input is blocked, what the game confines the cursor to is what it
/// is told afterwards that the cursor is confined to, and nothing else of any
/// window changes.
pub proof fn law_game_gets_the_clip_that_it_set<
    F: FnOnce() -> i32,
    G: FnOnce() -> (i32, Option<Rect>),
>(
    backends: &mut Backends,
    active: usize,
    rect: Rect,
    call: F,
    answer: i32,
    later: Backends,
    ask: G,
    outcome: (i32, Option<Rect>),
    id: u32,
    blocked: bool,
)
    requires
        call_ensures(active_hwnd_input_blocked, (&*backends, active, false), blocked),
        call_ensures(clip_cursor, (backends, active, false, Some(rect), call), answer),
        later@ == final(backends)@,
        call_ensures(get_clip_cursor, (&later, active, false, ask), outcome),
    ensures
        blocked ==> answer == 1 && outcome.0 == 1 && outcome.1 == Some(rect),
        !blocked ==> call_ensures(call, (), answer) && call_ensures(ask, (), outcome) && final(backends)@ == old(backends)@,
        old(backends)@.contains_key(id) <==> final(backends)@.contains_key(id),
        old(backends)@.contains_key(id) && id != active as u32 ==> final(backends)@[id] == old(backends)@[id],
        blocked ==> ({
            let before = old(backends)@[active as u32].proc.blocking_state->0;
            let after = final(backends)@[active as u32].proc.blocking_state->0;
            &&& after.old_ime_cx == before.old_ime_cx
            &&& after.show_count == before.show_count
            &&& after.saved_cursor == before.saved_cursor
            &&& after.class_cursor == before.class_cursor
            &&& final(backends)@[active as u32].layout == old(backends)@[active as u32].layout
        }),
{
}

/// A blocked game that confines the cursor no longer is told by the system.
pub proof fn law_clip_is_asked_of_the_system_without_one<G: FnOnce() -> (i32, Option<Rect>)>(
    backends: Backends,
    active: usize,
    ask: G,
    outcome: (i32, Option<Rect>),
)
    requires
        call_ensures(get_clip_cursor, (&backends, active, false, ask), outcome),
        backends@.contains_key(active as u32) ==> (
        backends@[active as u32].proc.blocking_state matches Some(data) ==> data.clip_cursor
            is None),
    ensures
        call_ensures(ask, (), outcome),
{
}

/// While the input of the foreground window is blocked the game moves nothing,
/// finds the cursor in the corner, sees no key down, and gets no raw input; each
/// call succeeds. Else the system answers.
pub proof fn law_blocked_foreground_sees_nothing<
    F: FnOnce() -> i32,
    G: FnOnce(Option<InputPosition>) -> (i32, Option<InputPosition>),
    H: FnOnce() -> i16,
    K: FnOnce() -> (u32, u32),
>(
    backends: Backends,
    foreground: usize,
    blocked: bool,
    set: F,
    answer: i32,
    place: Option<InputPosition>,
    get: G,
    outcome: (i32, Option<InputPosition>),
    key: H,
    state: i16,
    raw: K,
    taken: (u32, u32),
)
    requires
        call_ensures(foreground_hwnd_input_blocked, (&backends, foreground), blocked),
        call_ensures(set_cursor_pos, (&backends, foreground, set), answer),
        call_ensures(get_cursor_pos, (&backends, foreground, place, get), outcome),
        call_ensures(get_async_key_state, (&backends, foreground, key), state),
        call_ensures(get_raw_input_buffer, (&backends, foreground, raw), taken),
    ensures
        blocked ==> answer == 1 && state == 0 && taken.0 == 0 && taken.1 == 0,
        blocked ==> outcome.0 == 1 && (outcome.1 is Some <==> place is Some) && (outcome.1 is Some
            ==> outcome.1->0.x == 0 && outcome.1->0.y == 0),
        !blocked ==> call_ensures(set, (), answer) && call_ensures(get, (place,), outcome)
            && call_ensures(key, (), state) && call_ensures(raw, (), taken),
{
}

/// While the input of the active window is blocked every key is up, asked for
/// alone or together. Else the system answers.
pub proof fn law_blocked_window_sees_no_key<F: FnOnce() -> i16, G: FnOnce() -> (i32, [u8; 256])>(
    backends: Backends,
    active: usize,
    message_reading: bool,
    blocked: bool,
    one: F,
    state: i16,
    all: G,
    outcome: (i32, [u8; 256]),
    key: int,
)
    requires
        call_ensures(active_hwnd_input_blocked, (&backends, active, message_reading), blocked),
        call_ensures(get_key_state, (&backends, active, message_reading, one), state),
        call_ensures(get_keyboard_state, (&backends, active, message_reading, all), outcome),
        0 <= key < 256,
    ensures
        blocked ==> state == 0 && outcome.0 == 1 && outcome.1@[key] == 0,
        !blocked ==> call_ensures(one, (), state) && call_ensures(all, (), outcome),
{
}

/// A blocked game that asks for raw input is told the size of what it asked
/// for, where it has a place for the size; with a place for the data it gets
/// that many bytes of a device that is neither mouse nor keyboard. Of anything
/// but a header or an input it gets nothing.
pub proof fn law_blocked_raw_input_is_empty(
    command: u32,
    header_size: u32,
    input_size: u32,
    size_place: bool,
    data_place: bool,
    reply: RawReply,
)
    requires
        call_ensures(
            blocked_raw_input,
            (command, header_size, input_size, size_place, data_place),
            reply,
        ),
    ensures
        ({
            let size = if command == 0x1000_0005 {
                header_size
            } else if command == 0x1000_0003 {
                input_size
            } else {
                0
            };
            &&& reply.size is Some <==> size_place
            &&& size_place ==> reply.size->0 == size
            &&& data_place ==> reply.returned == size
            &&& !data_place ==> reply.returned == 0 && reply.header is None
            &&& data_place && (command == 0x1000_0005 || command == 0x1000_0003) ==> reply.header
                == Some((2u32, size))
            &&& command != 0x1000_0005 && command != 0x1000_0003 ==> reply.header is None
        }),
{
}

/// While input is blocked a cursor that the game shows raises the count that is
/// kept, one that it hides lowers it, by one each; the game is told the new
/// count, and nothing else that a window keeps changes.
pub proof fn law_game_counts_where_it_is_kept<F: FnOnce() -> i32>(
    backends: &mut Backends,
    passthrough: bool,
    show: bool,
    call: F,
    count: i32,
    any: bool,
)
    requires
        call_ensures(any_interactive, (&*backends,), any),
        call_ensures(show_cursor, (backends, passthrough, show, call), count),
    ensures
        passthrough || !any ==> call_ensures(call, (), count) && final(backends)@ == old(backends)@,
        !passthrough && any ==> exists|id: u32|
            #![trigger old(backends)@[id]]
            old(backends)@.contains_key(id) && old(backends)@[id].proc.blocking_state is Some
                && count == old(backends)@[id].proc.blocking_state->0.show_count + (if show {
                1int
            } else {
                -1int
            }) && final(backends)@[id].proc.blocking_state == Some(
                InputBlockData {
                    show_count: count,
                    ..old(backends)@[id].proc.blocking_state->0
                },
            ) && (forall|other: u32|
                other != id && old(backends)@.contains_key(other) ==> #[trigger] final(backends)@[other] == old(backends)@[other]),
{
    if !passthrough && any {
        let (id, data) = choose|id: u32, data: InputBlockData| #[trigger]
            keeps(old(backends)@, id, data) && count == data.show_count + (if show {
                1int
            } else {
                -1int
            }) && final(backends)@ == crate::backend::with_blocking(
                old(backends)@,
                id,
                InputBlockData { show_count: count, ..data },
            );
        assert(keeps(old(backends)@, id, data));
        assert(old(backends)@[id].proc.blocking_state == Some(data));
    }
}

/// While input is blocked a cursor that the game sets is kept at a blocked
/// window, in place of one that the game gets back; nothing else that a window
/// keeps changes.
pub proof fn law_game_swaps_the_kept_cursor<F: FnOnce() -> isize>(
    backends: &mut Backends,
    passthrough: bool,
    cursor: isize,
    call: F,
    previous: isize,
    any: bool,
)
    requires
        call_ensures(any_interactive, (&*backends,), any),
        call_ensures(set_cursor, (backends, passthrough, cursor, call), previous),
    ensures
        passthrough || !any ==> call_ensures(call, (), previous) && final(backends)@ == old(backends)@,
        !passthrough && any ==> exists|id: u32|
            #![trigger old(backends)@[id]]
            old(backends)@.contains_key(id) && old(backends)@[id].proc.blocking_state is Some
                && previous == old(backends)@[id].proc.blocking_state->0.saved_cursor && final(backends)@[id].proc.blocking_state == Some(
                InputBlockData {
                    saved_cursor: cursor,
                    ..old(backends)@[id].proc.blocking_state->0
                },
            ) && (forall|other: u32|
                other != id && old(backends)@.contains_key(other) ==> #[trigger] final(backends)@[other] == old(backends)@[other]),
{
    if !passthrough && any {
        let (id, data) = choose|id: u32, data: InputBlockData| #[trigger]
            keeps(old(backends)@, id, data) && previous == data.saved_cursor && final(backends)@
                == crate::backend::with_blocking(
                old(backends)@,
                id,
                InputBlockData { saved_cursor: cursor, ..data },
            );
        assert(keeps(old(backends)@, id, data));
        assert(old(backends)@[id].proc.blocking_state == Some(data));
    }
}

/// While input is blocked the game gets a cursor that a blocked window keeps;
/// where only one window is blocked, that window's.
pub proof fn law_game_gets_the_kept_cursor<F: FnOnce() -> isize>(
    backends: Backends,
    passthrough: bool,
    call: F,
    cursor: isize,
    id: u32,
)
    requires
        call_ensures(get_cursor, (&backends, passthrough, call), cursor),
        backends@.contains_key(id) && backends@[id].proc.blocking_state is Some,
        forall|other: u32| #[trigger]
            backends@.contains_key(other) && other != id ==> backends@[other].proc.blocking_state
                is None,
    ensures
        passthrough ==> call_ensures(call, (), cursor),
        !passthrough ==> cursor == backends@[id].proc.blocking_state->0.saved_cursor,
{
    if !passthrough {
        assert(crate::backend::any_blocked(backends@));
        let (at, data) = choose|at: u32, data: InputBlockData| #[trigger]
            keeps(backends@, at, data) && cursor == data.saved_cursor;
        assert(keeps(backends@, at, data));
        assert(backends@.contains_key(at));
    }
}

/// What the game learns of the cursor while input is blocked: it stands in the
/// corner, has the shape that the game set, and is shown exactly if the game's
/// own count is not below zero; one that the system suppresses stays
/// suppressed.
pub proof fn law_cursor_is_told_as_the_game_set_it(info: &mut CursorInfo, data: InputBlockData)
    requires
        call_ensures(mask_cursor_info, (info, &data), ()),
    ensures
        final(info).position.x == 0 && final(info).position.y == 0,
        final(info).cursor == data.saved_cursor,
        old(info).flags == 2 ==> final(info).flags == 2,
        old(info).flags != 2 ==> final(info).flags == (if data.show_count >= 0 {
            1u32
        } else {
            0
        }),
{
}

/// What the system tells of the cursor reaches the game as it is while no input
/// is blocked; else as what is kept says.
pub proof fn law_cursor_is_told_by_what_is_kept(
    backends: Backends,
    told: Option<CursorInfo>,
    info: Option<CursorInfo>,
    any: bool,
)
    requires
        call_ensures(any_interactive, (&backends,), any),
        call_ensures(after_get_cursor_info, (&backends, told), info),
    ensures
        info is Some <==> told is Some,
        !any ==> info == told,
        any && told is Some ==> info->0.position.x == 0 && info->0.position.y == 0 && exists|
            id: u32,
        |
            #![trigger backends@[id]]
            backends@.contains_key(id) && backends@[id].proc.blocking_state is Some
                && info->0.cursor == backends@[id].proc.blocking_state->0.saved_cursor
                && info->0.flags == (if told->0.flags == 2 {
                2u32
            } else if backends@[id].proc.blocking_state->0.show_count >= 0 {
                1
            } else {
                0
            }),
{
    if any && told is Some {
        let (id, data) = choose|id: u32, data: InputBlockData| #[trigger]
            keeps(backends@, id, data) && info == Some(masked(told->0, data));
        assert(keeps(backends@, id, data));
        assert(backends@[id].proc.blocking_state == Some(data));
    }
}

/// Ten functions have to be detoured and eighteen may be; no function is both,
/// none comes twice, and every one that is detoured comes.
pub proof fn law_every_function_is_detoured_once(needed: Vec<Site>, optional: Vec<Site>, site: Site)
    requires
        call_ensures(needed_sites, (), needed),
        call_ensures(optional_sites, (), optional),
    ensures
        needed@.len() == 10 && optional@.len() == 18,
        needed@.contains(site) <==> (site is ClipCursor || site is SetCursorPos
            || site is GetClipCursor || site is GetCursorPos || site is GetPhysicalCursorPos
            || site is GetAsyncKeyState || site is GetKeyState || site is GetKeyboardState
            || site is GetRawInputData || site is GetRawInputBuffer),
        optional@.contains(site) <==> !needed@.contains(site),
        forall|i: int, j: int| 0 <= i < j < 10 ==> needed@[i] != needed@[j],
        forall|i: int, j: int| 0 <= i < j < 18 ==> optional@[i] != optional@[j],
{
    assert(needed@[0] is ClipCursor && needed@[1] is SetCursorPos && needed@[2] is GetClipCursor
        && needed@[3] is GetCursorPos && needed@[4] is GetPhysicalCursorPos
        && needed@[5] is GetAsyncKeyState && needed@[6] is GetKeyState
        && needed@[7] is GetKeyboardState && needed@[8] is GetRawInputData
        && needed@[9] is GetRawInputBuffer);
    assert(optional@[0] is ShowCursor && optional@[1] is SetCursor && optional@[2] is GetCursor
        && optional@[3] is GetCursorInfo && optional@[4] is SetCapture
        && optional@[5] is ReleaseCapture && optional@[6] is FlashWindow
        && optional@[7] is FlashWindowEx && optional@[8] is SetDeviceGammaRamp
        && optional@[9] is RegisterDeviceNotificationA
        && optional@[10] is RegisterDeviceNotificationW
        && optional@[11] is UnregisterDeviceNotification
        && optional@[12] is RegisterRawInputDevices
        && optional@[13] is GetRegisteredRawInputDevices
        && optional@[14] is GetRawInputDeviceList && optional@[15] is GetRawInputDeviceInfoA
        && optional@[16] is GetRawInputDeviceInfoW && optional@[17] is ImmAssociateContext);
}

/// The detours are made once. They stand only when every needed function has
/// one, each under its own place; a failure leaves nothing behind, and was one
/// of a needed function.
pub proof fn law_detours_stand_together<E, F: Fn(Site) -> Result<usize, E>>(
    latched: &mut Option<Hook>,
    attach: F,
    done: Result<(), E>,
    sites: Vec<Site>,
    i: int,
)
    requires
        call_ensures(hook::<E, F>, (latched, attach), done),
        call_ensures(needed_sites, (), sites),
        0 <= i < sites@.len(),
    ensures
        *old(latched) is Some ==> done is Ok && *final(latched) == *old(latched),
        done is Ok <==> *final(latched) is Some,
        *old(latched) is None && done is Ok ==> (*final(latched))->0.needed@.len() == 10 && (
        *final(latched))->0.optional@.len() == 18 && call_ensures(
            attach,
            (sites@[i],),
            Ok::<usize, E>((*final(latched))->0.needed@[i]),
        ),
        done is Err ==> exists|site: Site|
            sites@.contains(site) && #[trigger] call_ensures(
                attach,
                (site,),
                Err::<usize, E>(done->Err_0),
            ),
{
    if done is Err {
        let originals = choose|originals: Seq<usize>| #[trigger]
            stopped(attach, originals, done->Err_0);
        let site = needed()[originals.len() as int];
        assert(sites@[originals.len() as int] == site);
        assert(call_ensures(attach, (site,), Err::<usize, E>(done->Err_0)));
    }
}

} // verus!
