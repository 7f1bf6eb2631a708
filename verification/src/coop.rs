//! Hints to the game: whether it should present for the overlay's sake, and
//! whether the overlay is using the input devices.

use crate::backend::Backends;
use vstd::prelude::*;

verus! {

/// A hint older than this many milliseconds is stale.
pub const NEEDS_PRESENT_MS: u32 = 0x1770;

/// Whether a present is due at `tick`, when the last hint was given at `last`;
/// both count milliseconds and wrap around.
pub open spec fn present_is_due(tick: u32, last: u32, renderer_wants: bool) -> bool {
    tick < last || tick - last > NEEDS_PRESENT_MS || renderer_wants
}

/// Whether the game should present: the last hint is stale or lies ahead of
/// `tick`, or the renderer wants it.
pub fn needs_present(tick: u32, last: u32, renderer_wants: bool) -> (due: bool)
    ensures
        due == present_is_due(tick, last, renderer_wants),
{
    tick < last || tick - last > NEEDS_PRESENT_MS || renderer_wants
}

/// The renderer wants a present while the overlay is interactive, or while a
/// frame waits to be shown.
pub fn renderer_wants(interactive: bool, pending_mailbox: bool) -> (wants: bool)
    ensures
        wants == (interactive || pending_mailbox),
{
    interactive || pending_mailbox
}

/// The overlay uses every input device while it is interactive.
pub fn using_device(interactive: bool) -> (using: bool)
    ensures
        using == interactive,
{
    interactive
}

/// Whether any window has its input blocked.
pub fn is_interactive(backends: &Backends) -> (interactive: bool)
    ensures
        interactive == crate::backend::any_blocked(backends@),
{
    backends.any_blocking()
}

/// Whether any window has a frame that waits to be shown; `windows` tells it of
/// each.
pub fn pending_mailbox(windows: &Vec<bool>) -> (pending: bool)
    ensures
        pending == windows@.contains(true),
{
    let mut i: usize = 0;
    while i < windows.len()
        invariant
            i <= windows@.len(),
            forall|j: int| 0 <= j < i ==> !windows@[j],
        decreases windows@.len() - i,
    {
        if windows[i] {
            assert(windows@[i as int]);
            return true;
        }
        i += 1;
    }
    false
}

/// Answers the game's question whether it should present, and remembers the
/// time of every "yes".
pub fn b_overlay_needs_present(
    last: &mut u32,
    tick: u32,
    backends: &Backends,
    pending: &Vec<bool>,
) -> (due: bool)
    ensures
        due == present_is_due(
            tick,
            *old(last),
            crate::backend::any_blocked(backends@) || pending@.contains(true),
        ),
        *final(last) == (if due { tick } else { *old(last) }),
{
    let due = needs_present(
        tick,
        *last,
        renderer_wants(is_interactive(backends), pending_mailbox(pending)),
    );
    if due {
        *last = tick;
    }
    due
}

/// The overlay is there as soon as it can be asked.
pub fn is_overlay_enabled() -> (enabled: bool)
    ensures
        enabled,
{
    true
}

/// Whether the overlay is using gamepad, keyboard and mouse.
pub fn overlay_is_using_input(backends: &Backends) -> (using: bool)
    ensures
        using == crate::backend::any_blocked(backends@),
{
    using_device(is_interactive(backends))
}

/// After a "yes" the next one is not due, for staleness alone, until the hint
/// has grown stale again.
pub proof fn law_hint_resets_the_window(tick: u32, later: u32)
    requires
        tick <= later,
        later - tick <= NEEDS_PRESENT_MS,
    ensures
        !present_is_due(later, tick, false),
{
}

/// The game should present when the last hint is more than six seconds old, when it
/// lies ahead of the clock, while the overlay is interactive, and while a frame waits;
/// else not. The time of a "yes", and of no other answer, is kept.
pub proof fn law_present_is_asked_for_every_six_seconds(
    last: &mut u32,
    tick: u32,
    backends: Backends,
    pending: Vec<bool>,
    due: bool,
    interactive: bool,
)
    requires
        call_ensures(b_overlay_needs_present, (last, tick, &backends, &pending), due),
        call_ensures(is_interactive, (&backends,), interactive),
    ensures
        due <==> interactive || pending@.contains(true) || tick < *old(last) || tick > *old(last)
            + 6000,
        due ==> *final(last) == tick,
        !due ==> *final(last) == *old(last),
        interactive <==> exists|id: u32| #[trigger]
            backends@.contains_key(id) && backends@[id].proc.blocking_state is Some,
{
}

/// What wants a present, and what input is used, follows from whether the overlay is
/// interactive; a waiting frame of any window wants a present too. The overlay is
/// always there.
pub proof fn law_interactive_overlay_wants_presents_and_devices(
    interactive: bool,
    windows: Vec<bool>,
    pending: bool,
    wants: bool,
    using: bool,
    due: bool,
    tick: u32,
    last: u32,
    enabled: bool,
)
    requires
        call_ensures(pending_mailbox, (&windows,), pending),
        call_ensures(renderer_wants, (interactive, pending), wants),
        call_ensures(using_device, (interactive,), using),
        call_ensures(needs_present, (tick, last, wants), due),
        call_ensures(is_overlay_enabled, (), enabled),
    ensures
        pending <==> exists|i: int| 0 <= i < windows@.len() && #[trigger] windows@[i],
        wants <==> interactive || pending,
        using == interactive,
        due <==> wants || tick < last || tick - last > 6000,
        enabled,
{
    if pending {
        let i = windows@.index_of(true);
        assert(windows@[i]);
    }
}

/// The overlay uses the devices exactly while a window has its input blocked.
pub proof fn law_devices_are_used_while_input_is_blocked(backends: Backends, using: bool)
    requires
        call_ensures(overlay_is_using_input, (&backends,), using),
    ensures
        using <==> exists|id: u32| #[trigger]
            backends@.contains_key(id) && backends@[id].proc.blocking_state is Some,
{
}

} // verus!
