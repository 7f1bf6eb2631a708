//! Events that the overlay reports to its clients.

use vstd::prelude::*;

verus! {

/// Locally unique identifier of a graphics adapter.
#[derive(Debug, Clone, Copy, PartialEq, Eq, Structural)]
pub struct GpuLuid {
    pub low: u32,
    pub high: i32,
}

/// A point, in pixels.
#[derive(Debug, Clone, Copy, PartialEq, Eq, Structural)]
pub struct InputPosition {
    pub x: i32,
    pub y: i32,
}

impl InputPosition {
    /// The point as seen from `origin`, in two's complement arithmetic.
    pub open spec fn seen_from(self, origin: (i32, i32)) -> InputPosition {
        InputPosition { x: self.x.wrapping_sub(origin.0), y: self.y.wrapping_sub(origin.1) }
    }

    /// Translates the point into a coordinate system that starts at `origin`.
    pub fn relative_to(self, origin: (i32, i32)) -> (moved: InputPosition)
        ensures
            moved == self.seen_from(origin),
    {
        InputPosition { x: self.x.wrapping_sub(origin.0), y: self.y.wrapping_sub(origin.1) }
    }
}

/// A mouse button.
#[derive(Debug, Clone, Copy, PartialEq, Eq, Structural)]
pub enum CursorAction {
    Left,
    Right,
    Middle,
}

/// Whether a mouse button went down or up.
#[derive(Debug, Clone, Copy, PartialEq, Eq, Structural)]
pub enum CursorInputState {
    Pressed { double_click: bool },
    Released,
}

/// The direction of a wheel.
#[derive(Debug, Clone, Copy, PartialEq, Eq, Structural)]
pub enum ScrollAxis {
    X,
    Y,
}

/// What the cursor did.
#[derive(Debug, Clone, Copy, PartialEq, Eq, Structural)]
pub enum CursorEvent {
    Action { state: CursorInputState, action: CursorAction },
    Move,
    Scroll { axis: ScrollAxis, delta: i16 },
}

/// A cursor event with the cursor's place in the surface and in the window.
#[derive(Debug, Clone, Copy, PartialEq, Eq, Structural)]
pub struct CursorInput {
    pub event: CursorEvent,
    pub client: InputPosition,
    pub window: InputPosition,
}

/// A virtual key; code 0 is no key.
#[derive(Debug, Clone, Copy, PartialEq, Eq, Structural)]
pub struct Key {
    pub code: u8,
    pub extended: bool,
}

impl Key {
    /// A key has a code other than 0.
    pub open spec fn wf(self) -> bool {
        self.code != 0
    }

    /// The key with this code, unless the code is 0.
    pub fn new(code: u8, extended: bool) -> (key: Option<Key>)
        ensures
            key == (if code == 0 { None } else { Some(Key { code, extended }) }),
    {
        if code == 0 {
            None
        } else {
            Some(Key { code, extended })
        }
    }
}

/// Whether a key went down or up.
#[derive(Debug, Clone, Copy, PartialEq, Eq, Structural)]
pub enum KeyInputState {
    Pressed,
    Released,
}

/// A keyboard event.
#[derive(Debug, Clone, Copy, PartialEq, Eq, Structural)]
pub enum KeyboardInput {
    Key { key: Key, state: KeyInputState },
    Char(char),
}

/// An input event of a window.
#[derive(Debug, Clone, Copy, PartialEq, Eq, Structural)]
pub enum InputEvent {
    Cursor(CursorInput),
    Keyboard(KeyboardInput),
}

/// What happened to a window.
#[derive(Debug, Clone, Copy, PartialEq, Eq, Structural)]
pub enum WindowEvent {
    Added { width: u32, height: u32, gpu_id: GpuLuid },
    Resized { width: u32, height: u32 },
    Input(InputEvent),
    InputBlockingEnded,
    Destroyed,
}

/// An event, with the window it belongs to.
#[derive(Debug, Clone, Copy, PartialEq, Eq, Structural)]
pub enum OverlayEvent {
    Window { id: u32, event: WindowEvent },
}

impl OverlayEvent {
    /// The window that the event belongs to.
    pub open spec fn window(self) -> u32 {
        match self {
            OverlayEvent::Window { id, .. } => id,
        }
    }

    /// What happened to that window.
    pub open spec fn what(self) -> WindowEvent {
        match self {
            OverlayEvent::Window { event, .. } => event,
        }
    }
}

/// A point as seen from an origin is as far from it as it was: moving on by the origin
/// leads back, in both directions, in two's complement arithmetic.
pub proof fn law_point_is_measured_from_the_origin(
    point: InputPosition,
    origin: (i32, i32),
    moved: InputPosition,
)
    requires
        call_ensures(InputPosition::relative_to, (point, origin), moved),
    ensures
        moved.x.wrapping_add(origin.0) == point.x,
        moved.y.wrapping_add(origin.1) == point.y,
        i32::MIN <= point.x - origin.0 <= i32::MAX ==> moved.x == point.x - origin.0,
        i32::MIN <= point.y - origin.1 <= i32::MAX ==> moved.y == point.y - origin.1,
{
}

/// Every code but 0 is a key, with the mark that it came with.
pub proof fn law_only_zero_is_no_key(code: u8, extended: bool, key: Option<Key>)
    requires
        call_ensures(Key::new, (code, extended), key),
    ensures
        key is None <==> code == 0,
        key is Some ==> (key->0).code == code && (key->0).extended == extended,
{
}

} // verus!
