//! Color spaces of swap chains.

use crate::int_map::WordTable;
use vstd::prelude::*;

verus! {

/// A linear color space.
pub const COLOR_SPACE_RGB_FULL_G10_NONE_P709: i32 = 1;

/// A color space with a perceptual quantizer.
pub const COLOR_SPACE_RGB_FULL_G2084_NONE_P2020: i32 = 12;

/// What the overlay is drawn for.
#[derive(Debug, Clone, Copy, PartialEq, Eq, Structural)]
pub enum OverlayBlitColorSpace {
    Sdr,
    Scrgb,
    Pq,
}

/// What the overlay is drawn for in a color space.
pub open spec fn blit_space(color_space: i32) -> OverlayBlitColorSpace {
    if color_space == COLOR_SPACE_RGB_FULL_G10_NONE_P709 {
        OverlayBlitColorSpace::Scrgb
    } else if color_space == COLOR_SPACE_RGB_FULL_G2084_NONE_P2020 {
        OverlayBlitColorSpace::Pq
    } else {
        OverlayBlitColorSpace::Sdr
    }
}

/// What the overlay is drawn for in a color space.
pub fn overlay_blit_color_space(v22: i32) -> (space: OverlayBlitColorSpace)
    ensures
        space == blit_space(v22),
{
    match v22 {
        COLOR_SPACE_RGB_FULL_G10_NONE_P709 => OverlayBlitColorSpace::Scrgb,
        COLOR_SPACE_RGB_FULL_G2084_NONE_P2020 => OverlayBlitColorSpace::Pq,
        _ => OverlayBlitColorSpace::Sdr,
    }
}

/// A color space as a machine word.
spec fn word_of(color_space: i32) -> usize {
    (color_space as u32) as usize
}

/// The color space that a machine word stands for.
spec fn of_word(word: usize) -> i32 {
    (word as u32) as i32
}

/// A word stands for the color space that it was made of.
proof fn lemma_word(color_space: i32)
    ensures
        of_word(word_of(color_space)) == color_space,
{
    let low = color_space as u32;
    assert((color_space as u32) as i32 == color_space) by (bit_vector);
    assert((low as usize) as u32 == low);
}

/// The color space that the game set last for each swap chain.
pub struct ColorSpaces {
    last: WordTable,
}

impl View for ColorSpaces {
    type V = Map<usize, i32>;

    closed spec fn view(&self) -> Map<usize, i32> {
        self.last@.map_values(|word: usize| of_word(word))
    }
}

/// The color space of a swap chain; without one it is the first.
pub open spec fn color_space_of(spaces: Map<usize, i32>, swapchain: usize) -> i32 {
    if spaces.contains_key(swapchain) {
        spaces[swapchain]
    } else {
        0
    }
}

impl ColorSpaces {
    /// Nothing was set.
    pub fn new() -> (spaces: ColorSpaces)
        ensures
            spaces@ == Map::<usize, i32>::empty(),
    {
        let spaces = ColorSpaces { last: WordTable::new() };
        assert(spaces@ =~= Map::<usize, i32>::empty());
        spaces
    }

    /// Remembers the color space that the game sets for a swap chain.
    pub fn record_swapchain_color_space(&mut self, swapchain: usize, v22: i32)
        ensures
            final(self)@ == old(self)@.insert(swapchain, v22),
    {
        let word: usize = (v22 as u32) as usize;
        let _replaced = self.last.insert(swapchain, word);
        proof {
            lemma_word(v22);
            assert(self@ =~= old(self)@.insert(swapchain, v22));
        }
    }

    /// Forgets a swap chain.
    pub fn forget_swapchain_color_space(&mut self, swapchain: usize)
        ensures
            final(self)@ == old(self)@.remove(swapchain),
    {
        let _removed = self.last.remove(swapchain);
        assert(self@ =~= old(self)@.remove(swapchain));
    }

    /// What the overlay is drawn for in a swap chain; `newer` is its newer
    /// interface, if it has one.
    pub fn blit_color_space_for(&self, newer: Option<usize>, swapchain: usize) -> (space:
        OverlayBlitColorSpace)
        ensures
            space == blit_space(
                color_space_of(
                    self@,
                    match newer {
                        Some(newer) => newer,
                        None => swapchain,
                    },
                ),
            ),
    {
        match newer {
            Some(newer) => self.blit_color_space_for3(newer),
            None => self.blit_color_space_for3(swapchain),
        }
    }

    /// What the overlay is drawn for in a swap chain.
    pub fn blit_color_space_for3(&self, swapchain: usize) -> (space: OverlayBlitColorSpace)
        ensures
            space == blit_space(color_space_of(self@, swapchain)),
    {
        let color_space: i32 = match self.last.get(swapchain) {
            Some(word) => (word as u32) as i32,
            None => 0,
        };
        overlay_blit_color_space(color_space)
    }
}

/// The overlay is drawn for the color space that was set last, and for the
/// standard one where none was set or the swap chain was forgotten.
pub proof fn law_last_color_space_counts(
    spaces: Map<usize, i32>,
    swapchain: usize,
    color_space: i32,
)
    ensures
        color_space_of(spaces.insert(swapchain, color_space), swapchain) == color_space,
        blit_space(color_space_of(spaces.remove(swapchain), swapchain))
            == OverlayBlitColorSpace::Sdr,
{
}

/// The linear color space is 1, and the one with a quantizer 12; every other is
/// a standard one.
pub proof fn law_two_color_spaces_are_special(v22: i32, space: OverlayBlitColorSpace)
    requires
        call_ensures(overlay_blit_color_space, (v22,), space),
    ensures
        space is Scrgb <==> v22 == 1,
        space is Pq <==> v22 == 12,
{
}

/// A swap chain is drawn for the color space that was recorded for it last, and
/// for a standard one once it is forgotten; other swap chains are not affected.
pub proof fn law_recorded_color_space_is_drawn_for(
    spaces: &mut ColorSpaces,
    swapchain: usize,
    v22: i32,
    named: OverlayBlitColorSpace,
    recorded: ColorSpaces,
    drawn: OverlayBlitColorSpace,
    next: &mut ColorSpaces,
    later: ColorSpaces,
    after: OverlayBlitColorSpace,
    other: usize,
    before_other: OverlayBlitColorSpace,
    after_other: OverlayBlitColorSpace,
)
    requires
        call_ensures(ColorSpaces::record_swapchain_color_space, (spaces, swapchain, v22), ()),
        call_ensures(overlay_blit_color_space, (v22,), named),
        recorded == *final(spaces),
        call_ensures(ColorSpaces::blit_color_space_for3, (&recorded, swapchain), drawn),
        *next == recorded,
        call_ensures(ColorSpaces::forget_swapchain_color_space, (next, swapchain), ()),
        later == *final(next),
        call_ensures(ColorSpaces::blit_color_space_for3, (&later, swapchain), after),
        other != swapchain,
        call_ensures(ColorSpaces::blit_color_space_for3, (&*spaces, other), before_other),
        call_ensures(ColorSpaces::blit_color_space_for3, (&later, other), after_other),
    ensures
        drawn == named,
        after is Sdr,
        after_other == before_other,
{
}

/// A swap chain with a newer interface is known by that, and at first every swap
/// chain is drawn for a standard color space.
pub proof fn law_newer_interface_counts(
    spaces: ColorSpaces,
    newer: Option<usize>,
    swapchain: usize,
    space: OverlayBlitColorSpace,
    own: OverlayBlitColorSpace,
    fresh: ColorSpaces,
    first: OverlayBlitColorSpace,
)
    requires
        call_ensures(ColorSpaces::blit_color_space_for, (&spaces, newer, swapchain), space),
        call_ensures(
            ColorSpaces::blit_color_space_for3,
            (
                &spaces,
                if newer is Some {
                    newer->0
                } else {
                    swapchain
                },
            ),
            own,
        ),
        call_ensures(ColorSpaces::new, (), fresh),
        call_ensures(ColorSpaces::blit_color_space_for, (&fresh, newer, swapchain), first),
    ensures
        space == own,
        first is Sdr,
{
}

} // verus!
