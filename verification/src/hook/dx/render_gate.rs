//! Which graphics interface draws in a window.

use crate::backend::render::Renderer;
use vstd::prelude::*;

verus! {

/// Whether the overlay is drawn in this frame.
#[derive(Debug, Clone, Copy, PartialEq, Eq, Structural)]
pub enum DrawGate {
    /// The interface is the window's: it draws.
    Draw,
    /// The interface took over from another: it draws from the next frame on.
    Adopted,
    /// Another interface is the window's.
    Ignored,
}

/// Whether an interface draws.
pub open spec fn gate(
    active: Option<Renderer>,
    target: Renderer,
    migrate_from: Seq<Renderer>,
) -> DrawGate {
    match active {
        None => DrawGate::Draw,
        Some(current) => if current == target {
            DrawGate::Draw
        } else if migrate_from.contains(current) {
            DrawGate::Adopted
        } else {
            DrawGate::Ignored
        },
    }
}

/// The interface of a window after another one wants to draw in it.
pub open spec fn adopted(
    active: Option<Renderer>,
    target: Renderer,
    migrate_from: Seq<Renderer>,
) -> Option<Renderer> {
    match gate(active, target, migrate_from) {
        DrawGate::Ignored => active,
        _ => Some(target),
    }
}

/// Whether a list holds an interface.
fn holds(list: &[Renderer], renderer: Renderer) -> (held: bool)
    ensures
        held == list@.contains(renderer),
{
    let mut i: usize = 0;
    while i < list.len()
        invariant
            i <= list@.len(),
            forall|k: int| 0 <= k < i ==> list@[k] != renderer,
        decreases list@.len() - i,
    {
        if list[i] == renderer {
            assert(list@.contains(list@[i as int]));
            return true;
        }
        i += 1;
    }
    false
}

/// Lets an interface draw in a window: the first that does becomes the window's,
/// and one may take over from those in `migrate_from`.
pub fn adopt_renderer(
    active: &mut Option<Renderer>,
    target: Renderer,
    migrate_from: &[Renderer],
) -> (draw: DrawGate)
    ensures
        draw == gate(*old(active), target, migrate_from@),
        *final(active) == adopted(*old(active), target, migrate_from@),
{
    match *active {
        None => {
            *active = Some(target);
            DrawGate::Draw
        },
        Some(current) => {
            if current == target {
                DrawGate::Draw
            } else if holds(migrate_from, current) {
                *active = Some(target);
                DrawGate::Adopted
            } else {
                DrawGate::Ignored
            }
        },
    }
}

/// An interface that was not ignored draws the next time, whoever it took over
/// from; and while it draws, those that it does not give way to are ignored.
pub proof fn law_adopted_renderer_draws_next(
    active: Option<Renderer>,
    target: Renderer,
    migrate_from: Seq<Renderer>,
    other: Renderer,
    other_migrates: Seq<Renderer>,
)
    requires
        gate(active, target, migrate_from) != DrawGate::Ignored,
        other != target,
        !other_migrates.contains(target),
    ensures
        gate(adopted(active, target, migrate_from), target, migrate_from) == DrawGate::Draw,
        gate(adopted(active, target, migrate_from), other, other_migrates) == DrawGate::Ignored,
{
}

/// The first interface that wants to draw in a window does, and goes on to. One
/// that may take over does so without drawing in that frame; any other is
/// ignored and changes nothing.
pub proof fn law_one_interface_draws_in_a_window(
    active: &mut Option<Renderer>,
    target: Renderer,
    migrate_from: &[Renderer],
    draw: DrawGate,
    next: &mut Option<Renderer>,
    again: DrawGate,
)
    requires
        call_ensures(adopt_renderer, (active, target, migrate_from), draw),
        *next == *final(active),
        call_ensures(adopt_renderer, (next, target, migrate_from), again),
    ensures
        *old(active) is None ==> draw is Draw && *final(active) == Some(target),
        *old(active) == Some(target) ==> draw is Draw && *final(active) == Some(target),
        *old(active) is Some && *old(active) != Some(target) ==> {
            &&& migrate_from@.contains((*old(active))->0) ==> draw is Adopted && *final(active)
                == Some(target)
            &&& !migrate_from@.contains((*old(active))->0) ==> draw is Ignored && *final(active)
                == *old(active)
        },
        draw is Ignored ==> again is Ignored,
        !(draw is Ignored) ==> again is Draw,
{
}

} // verus!
