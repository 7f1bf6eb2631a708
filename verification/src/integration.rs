//! What runs against a real game wait for.

use crate::event::{GpuLuid, OverlayEvent, WindowEvent};
use vstd::prelude::*;

verus! {

/// A letter with its case dropped, if it is one of the Latin alphabet.
pub open spec fn lower(c: char) -> char {
    if 'A' <= c && c <= 'Z' {
        ((c as u32) + 0x20) as char
    } else {
        c
    }
}

/// Whether a setting says yes: `1`, or `true` in any case.
pub open spec fn says_yes(value: Seq<char>) -> bool {
    value == "1"@ || value.map_values(|c: char| lower(c)) == "true"@
}

/// Whether a character is a letter in either case.
fn is_letter(c: char, small: char, capital: char) -> (is: bool)
    requires
        'a' <= small <= 'z',
        capital as u32 + 0x20 == small as u32,
    ensures
        is == (lower(c) == small),
{
    c == small || c == capital
}

/// Whether runs against a real game are asked for.
pub fn integration_enabled(value: Option<&str>) -> (enabled: bool)
    ensures
        enabled == (value is Some && says_yes((value->0)@)),
{
    proof {
        reveal_strlit("1");
        reveal_strlit("true");
    }
    match value {
        None => false,
        Some(text) => {
            let n: usize = text.unicode_len();
            if n == 1 {
                let one = text.get_char(0) == '1';
                proof {
                    assert(one == (text@ =~= "1"@));
                    assert(text@.map_values(|c: char| lower(c)).len() != "true"@.len());
                }
                return one;
            }
            if n != 4 {
                proof {
                    assert(text@.map_values(|c: char| lower(c)).len() != "true"@.len());
                }
                return false;
            }
            let yes = is_letter(text.get_char(0), 't', 'T') && is_letter(
                text.get_char(1),
                'r',
                'R',
            ) && is_letter(text.get_char(2), 'u', 'U') && is_letter(text.get_char(3), 'e', 'E');
            proof {
                let lowered = text@.map_values(|c: char| lower(c));
                assert(lowered[0] == lower(text@[0]));
                assert(lowered[1] == lower(text@[1]));
                assert(lowered[2] == lower(text@[2]));
                assert(lowered[3] == lower(text@[3]));
                assert(yes == (lowered =~= "true"@));
            }
            yes
        },
    }
}

/// What an event tells of a window that was found.
pub open spec fn found_window(event: OverlayEvent) -> Option<(u32, u32, u32, GpuLuid)> {
    match event.what() {
        WindowEvent::Added { width, height, gpu_id } => if width > 0 && height > 0 {
            Some((event.window(), width, height, gpu_id))
        } else {
            None
        },
        _ => None,
    }
}

/// What an event tells of a window that was found: its id, its size, and its
/// adapter. A window without an area does not count.
pub fn window_added(event: &OverlayEvent) -> (found: Option<(u32, u32, u32, GpuLuid)>)
    ensures
        found == found_window(*event),
{
    let OverlayEvent::Window { id, event: what } = *event;
    match what {
        WindowEvent::Added { width, height, gpu_id } => {
            if width > 0 && height > 0 {
                Some((id, width, height, gpu_id))
            } else {
                None
            }
        },
        _ => None,
    }
}

/// What an event tells of the new size of a window.
pub open spec fn found_size(
    event: OverlayEvent,
    window_id: u32,
    expected: Option<(u32, u32)>,
) -> Option<(u32, u32)> {
    match event.what() {
        WindowEvent::Resized { width, height } => if event.window() == window_id && width > 0
            && height > 0 && (expected is None || expected == Some((width, height))) {
            Some((width, height))
        } else {
            None
        },
        _ => None,
    }
}

/// What an event tells of the new size of a window. A size that is not the
/// expected one does not count.
pub fn window_resized(event: &OverlayEvent, window_id: u32, expected: Option<(u32, u32)>) -> (size:
    Option<(u32, u32)>)
    ensures
        size == found_size(*event, window_id, expected),
{
    let OverlayEvent::Window { id, event: what } = *event;
    match what {
        WindowEvent::Resized { width, height } => {
            if id != window_id || width == 0 || height == 0 {
                return None;
            }
            match expected {
                Some(size) => {
                    if width == size.0 && height == size.1 {
                        Some((width, height))
                    } else {
                        None
                    }
                },
                None => Some((width, height)),
            }
        },
        _ => None,
    }
}

/// How long one wait for the next event lasts, in milliseconds.
pub const WAIT_SLICE_MS: u64 = 500;

/// What a wait for the next event brought.
pub enum Waited {
    /// An event.
    Event(OverlayEvent),
    /// No event within the time that one wait lasts, or no wait yet.
    Nothing,
    /// The end of the events.
    End,
}

/// What is done after a wait for the next event.
#[derive(Debug, Clone, Copy, PartialEq, Eq)]
pub enum WaitStep<T> {
    /// What was waited for has come.
    Found(T),
    /// The next event is waited for, for so many milliseconds.
    Wait(u64),
    /// Nothing is waited for any longer.
    GiveUp,
}

/// What is done after a wait that found something or not.
pub open spec fn step_after<T>(found: Option<T>, ended: bool, left_ms: u64) -> WaitStep<T> {
    match found {
        Some(found) => WaitStep::Found(found),
        None => if ended || left_ms == 0 {
            WaitStep::GiveUp
        } else {
            WaitStep::Wait(WAIT_SLICE_MS)
        },
    }
}

/// Tells what is done after a wait that found something or not.
fn next_step<T>(found: Option<T>, ended: bool, left_ms: u64) -> (step: WaitStep<T>)
    ensures
        step == step_after(found, ended, left_ms),
{
    match found {
        Some(found) => WaitStep::Found(found),
        None => {
            if ended || left_ms == 0 {
                WaitStep::GiveUp
            } else {
                WaitStep::Wait(WAIT_SLICE_MS)
            }
        },
    }
}

/// What is done while a window is waited for and `left_ms` milliseconds are
/// left: what was found counts even when the time is over.
pub fn wait_for_window_added(waited: &Waited, left_ms: u64) -> (step: WaitStep<
    (u32, u32, u32, GpuLuid),
>)
    ensures
        step == step_after(
            match *waited {
                Waited::Event(event) => found_window(event),
                _ => None,
            },
            waited is End,
            left_ms,
        ),
{
    match waited {
        Waited::Event(event) => next_step(window_added(event), false, left_ms),
        Waited::Nothing => next_step(None, false, left_ms),
        Waited::End => next_step(None, true, left_ms),
    }
}

/// What is done while the new size of a window is waited for and `left_ms`
/// milliseconds are left.
pub fn wait_for_window_resized(
    waited: &Waited,
    window_id: u32,
    expected: Option<(u32, u32)>,
    left_ms: u64,
) -> (step: WaitStep<(u32, u32)>)
    ensures
        step == step_after(
            match *waited {
                Waited::Event(event) => found_size(event, window_id, expected),
                _ => None,
            },
            waited is End,
            left_ms,
        ),
{
    match waited {
        Waited::Event(event) => next_step(
            window_resized(event, window_id, expected),
            false,
            left_ms,
        ),
        Waited::Nothing => next_step(None, false, left_ms),
        Waited::End => next_step(None, true, left_ms),
    }
}

/// Whether a window can be given a size.
pub fn can_resize(width: i32, height: i32) -> (can: bool)
    ensures
        can == (width > 0 && height > 0),
{
    width > 0 && height > 0
}

/// Runs against a real game are asked for by `1`, or by the word `true` with
/// each letter in either case, and by nothing else.
pub proof fn law_only_one_and_true_say_yes(value: Option<&str>, enabled: bool)
    requires
        call_ensures(integration_enabled, (value,), enabled),
    ensures
        value is None ==> !enabled,
        value matches Some(text) ==> (enabled <==> ((text@.len() == 1 && text@[0] == '1') || (
        text@.len() == 4 && (text@[0] == 't' || text@[0] == 'T') && (text@[1] == 'r' || text@[1]
            == 'R') && (text@[2] == 'u' || text@[2] == 'U') && (text@[3] == 'e' || text@[3]
            == 'E')))),
{
    reveal_strlit("1");
    reveal_strlit("true");
    if let Some(text) = value {
        let lowered = text@.map_values(|c: char| lower(c));
        assert(lowered.len() == text@.len());
        assert(enabled == (text@ =~= "1"@ || lowered =~= "true"@));
        if text@.len() == 4 {
            assert(lowered[0] == lower(text@[0]) && lowered[1] == lower(text@[1]) && lowered[2]
                == lower(text@[2]) && lowered[3] == lower(text@[3]));
        }
    }
}

/// A window is found by the event that adds it, if it has an area, and is told
/// with its own id, size and adapter.
pub proof fn law_added_window_is_found(
    event: OverlayEvent,
    found: Option<(u32, u32, u32, GpuLuid)>,
    id: u32,
    width: u32,
    height: u32,
    gpu_id: GpuLuid,
)
    requires
        call_ensures(window_added, (&event,), found),
    ensures
        event == (OverlayEvent::Window {
            id,
            event: WindowEvent::Added { width, height, gpu_id },
        }) ==> found == (if width > 0 && height > 0 {
            Some((id, width, height, gpu_id))
        } else {
            None
        }),
        !(event->event is Added) ==> found is None,
{
}

/// A window's size is found by the event that resizes it, if it is the window
/// that is waited for, the size has an area, and it is the one expected where
/// one is.
pub proof fn law_new_size_is_found(
    event: OverlayEvent,
    window_id: u32,
    expected: Option<(u32, u32)>,
    size: Option<(u32, u32)>,
    id: u32,
    width: u32,
    height: u32,
)
    requires
        call_ensures(window_resized, (&event, window_id, expected), size),
    ensures
        event == (OverlayEvent::Window { id, event: WindowEvent::Resized { width, height } })
            ==> size == (if id == window_id && width > 0 && height > 0 && (expected is None || expected == Some(
            (width, height),
        )) {
            Some((width, height))
        } else {
            None
        }),
        !(event->event is Resized) ==> size is None,
{
}

/// What was found ends a wait, in time or not. Else the end of the events, or
/// of the time, does; and while there is time half a second is waited.
pub proof fn law_waits_end(
    waited: Waited,
    left_ms: u64,
    step: WaitStep<(u32, u32, u32, GpuLuid)>,
    found: Option<(u32, u32, u32, GpuLuid)>,
)
    requires
        call_ensures(wait_for_window_added, (&waited, left_ms), step),
        waited matches Waited::Event(event) ==> call_ensures(window_added, (&event,), found),
        !(waited is Event) ==> found is None,
    ensures
        found is Some ==> step == WaitStep::Found(found->0),
        found is None && (waited is End || left_ms == 0) ==> step is GiveUp,
        found is None && !(waited is End) && left_ms > 0 ==> step == WaitStep::<
            (u32, u32, u32, GpuLuid),
        >::Wait(500),
{
}

/// A wait for a new size ends as one for a window does.
pub proof fn law_waits_for_sizes_end(
    waited: Waited,
    window_id: u32,
    expected: Option<(u32, u32)>,
    left_ms: u64,
    step: WaitStep<(u32, u32)>,
    found: Option<(u32, u32)>,
)
    requires
        call_ensures(wait_for_window_resized, (&waited, window_id, expected, left_ms), step),
        waited matches Waited::Event(event) ==> call_ensures(
            window_resized,
            (&event, window_id, expected),
            found,
        ),
        !(waited is Event) ==> found is None,
    ensures
        found is Some ==> step == WaitStep::Found(found->0),
        found is None && (waited is End || left_ms == 0) ==> step is GiveUp,
        found is None && !(waited is End) && left_ms > 0 ==> step == WaitStep::<(u32, u32)>::Wait(
            500,
        ),
{
}

/// Only a size with an area can be given to a window.
pub proof fn law_sizes_have_an_area(width: i32, height: i32, can: bool)
    requires
        call_ensures(can_resize, (width, height), can),
    ensures
        can <==> (width >= 1 && height >= 1),
{
}

} // verus!
