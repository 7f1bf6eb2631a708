//! Construction of input events.

use crate::event::{
    CursorEvent, CursorInput, InputEvent, InputPosition, KeyboardInput, OverlayEvent, WindowEvent,
};
use vstd::prelude::*;

verus! {

/// The event for a cursor at `window` in a window whose surface starts at
/// `surface_offset`.
pub open spec fn cursor_event(
    hwnd: u32,
    surface_offset: (i32, i32),
    window: InputPosition,
    event: CursorEvent,
) -> OverlayEvent {
    OverlayEvent::Window {
        id: hwnd,
        event: WindowEvent::Input(
            InputEvent::Cursor(
                CursorInput { event, client: window.seen_from(surface_offset), window },
            ),
        ),
    }
}

/// The event for a keyboard input of a window.
pub open spec fn keyboard_event(hwnd: u32, input: KeyboardInput) -> OverlayEvent {
    OverlayEvent::Window { id: hwnd, event: WindowEvent::Input(InputEvent::Keyboard(input)) }
}

/// Builds a cursor event from window coordinates and the surface offset.
pub fn cursor_overlay_event(
    hwnd: u32,
    surface_offset: (i32, i32),
    window: InputPosition,
    event: CursorEvent,
) -> (built: OverlayEvent)
    ensures
        built == cursor_event(hwnd, surface_offset, window, event),
{
    let client = window.relative_to(surface_offset);
    OverlayEvent::Window {
        id: hwnd,
        event: WindowEvent::Input(InputEvent::Cursor(CursorInput { event, client, window })),
    }
}

/// Builds a keyboard event.
pub fn keyboard_overlay_event(hwnd: u32, input: KeyboardInput) -> (built: OverlayEvent)
    ensures
        built == keyboard_event(hwnd, input),
{
    OverlayEvent::Window { id: hwnd, event: WindowEvent::Input(InputEvent::Keyboard(input)) }
}

/// A built event tells the window, what the cursor did and where it is in the window,
/// and how far it is from where the surface starts, in two's complement arithmetic. A
/// keyboard event tells the window and the input.
pub proof fn law_built_events_tell_what_happened(
    hwnd: u32,
    offset: (i32, i32),
    window: InputPosition,
    event: CursorEvent,
    built: OverlayEvent,
    input: KeyboardInput,
    typed: OverlayEvent,
)
    requires
        call_ensures(cursor_overlay_event, (hwnd, offset, window, event), built),
        call_ensures(keyboard_overlay_event, (hwnd, input), typed),
    ensures
        built matches OverlayEvent::Window {
            id,
            event: WindowEvent::Input(InputEvent::Cursor(seen)),
        } && {
            &&& id == hwnd
            &&& seen.event == event
            &&& seen.window == window
            &&& seen.client.x.wrapping_add(offset.0) == window.x
            &&& seen.client.y.wrapping_add(offset.1) == window.y
        },
        typed matches OverlayEvent::Window {
            id,
            event: WindowEvent::Input(InputEvent::Keyboard(heard)),
        } && id == hwnd && heard == input,
{
}

} // verus!
