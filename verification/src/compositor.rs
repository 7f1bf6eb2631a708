//! The overlay is drawn inside the game's own present.

use vstd::prelude::*;

verus! {

/// There is no plane of its own on which the overlay would be shown.
pub const INDEPENDENT_SCANOUT: bool = false;

/// Whether the overlay is shown independently of the game's present.
pub fn independent_active() -> (active: bool)
    ensures
        active == INDEPENDENT_SCANOUT,
        !active,
{
    INDEPENDENT_SCANOUT
}

/// The overlay is never shown independently of the game's present.
pub proof fn law_overlay_is_shown_with_the_present(active: bool)
    requires
        call_ensures(independent_active, (), active),
    ensures
        !active,
{
}

} // verus!
