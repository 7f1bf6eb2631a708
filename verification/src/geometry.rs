//! Lengths and rectangles.

use vstd::prelude::*;

verus! {

/// A rectangle by its edges, in pixels.
#[derive(Clone, Copy, Debug, PartialEq, Eq, Structural)]
pub struct Rect {
    pub left: i32,
    pub top: i32,
    pub right: i32,
    pub bottom: i32,
}

/// A length in pixels, or relative to another one. The number is kept as the
/// bits of a single-precision float.
#[derive(Clone, Copy, Debug, PartialEq, Eq, Structural)]
pub enum PercentLength {
    Percent(u32),
    Length(u32),
}

impl PercentLength {
    /// No length at all.
    pub fn zero() -> (length: PercentLength)
        ensures
            length == PercentLength::Length(0),
    {
        PercentLength::Length(0)
    }
}

/// Part of a window in which a layer takes input.
#[derive(Clone, Copy, Debug, PartialEq, Eq, Structural)]
pub struct LayerInputRect {
    pub x: PercentLength,
    pub y: PercentLength,
    pub width: u32,
    pub height: u32,
}

/// Where the overlay surface goes in its window.
#[derive(Clone, Copy, Debug, PartialEq, Eq)]
pub struct OverlayLayout {
    /// Position, relative to the window's client size.
    pub position: (PercentLength, PercentLength),
    /// Anchor, relative to the surface with its margins.
    pub anchor: (PercentLength, PercentLength),
    /// Top, right, bottom and left margin, relative to the window's client size.
    pub margin: (PercentLength, PercentLength, PercentLength, PercentLength),
}

impl OverlayLayout {
    /// The top left corner, without margins.
    pub fn new() -> (layout: OverlayLayout)
        ensures
            layout == OverlayLayout::origin(),
    {
        let zero = PercentLength::zero();
        OverlayLayout {
            position: (zero, zero),
            anchor: (zero, zero),
            margin: (zero, zero, zero, zero),
        }
    }

    /// The layout at the top left corner, without margins.
    pub open spec fn origin() -> OverlayLayout {
        let zero = PercentLength::Length(0);
        OverlayLayout {
            position: (zero, zero),
            anchor: (zero, zero),
            margin: (zero, zero, zero, zero),
        }
    }
}

/// A new layout starts at the top left corner: every position, anchor and
/// margin is a length, and that of no pixels.
pub proof fn law_new_layout_is_at_the_corner(layout: OverlayLayout, zero: PercentLength)
    requires
        call_ensures(OverlayLayout::new, (), layout),
        call_ensures(PercentLength::zero, (), zero),
    ensures
        zero is Length && zero->Length_0 == 0,
        layout.position.0 == zero && layout.position.1 == zero,
        layout.anchor.0 == zero && layout.anchor.1 == zero,
        layout.margin.0 == zero && layout.margin.1 == zero && layout.margin.2 == zero
            && layout.margin.3 == zero,
{
}

} // verus!
