//! Flips of DirectDraw.

use crate::hook::combase::iid_qwords;
use crate::hook::late::attach_vtbl;
use vstd::prelude::*;

verus! {

/// Where `CreateSurface` stands in the table of the interface.
pub const CREATE_SURFACE_VTBL: usize = 6;

/// Where `SetCooperativeLevel` stands in the table of the interface.
pub const SET_COOP_VTBL: usize = 20;

/// Where `Flip` stands in the table of a surface.
pub const FLIP_VTBL: usize = 11;

/// The name of the seventh interface, as two words.
pub const IID_IDIRECTDRAW7: (u64, u64) = (0x11D2_3B9C_15E6_5EC0, 0x5BEA_9797_6000_2FB9);

/// Whether a name is that of the seventh interface.
pub open spec fn names_dd7(iid: Option<&[u8; 16]>) -> bool {
    iid is Some && crate::hook::combase::qwords((iid->0)@) == (
        IID_IDIRECTDRAW7.0 as int,
        IID_IDIRECTDRAW7.1 as int,
    )
}

/// Whether a name is that of the seventh interface.
pub fn is_dd7(iid: Option<&[u8; 16]>) -> (dd7: bool)
    ensures
        dd7 == names_dd7(iid),
{
    match iid_qwords(iid) {
        Some(words) => words.0 == IID_IDIRECTDRAW7.0 && words.1 == IID_IDIRECTDRAW7.1,
        None => false,
    }
}

/// The window of the game, and the real functions behind the detours.
#[derive(Debug, Clone, Copy, PartialEq, Eq, Structural)]
pub struct Ddraw {
    pub coop_hwnd: usize,
    pub create_surface: Option<usize>,
    pub set_coop: Option<usize>,
    pub flip: Option<usize>,
}

/// Whether a created interface is detoured: it is one of the first kind, or it
/// was asked for by the name of the seventh.
pub fn wraps(hr: i32, place: bool, by_name: bool, iid: Option<&[u8; 16]>) -> (wrap: bool)
    ensures
        wrap == (hr >= 0 && place && (!by_name || names_dd7(iid))),
{
    hr >= 0 && place && (!by_name || is_dd7(iid))
}

impl Ddraw {
    /// No window yet, nothing detoured.
    pub fn new() -> (ddraw: Ddraw)
        ensures
            ddraw == (Ddraw { coop_hwnd: 0, create_surface: None, set_coop: None, flip: None }),
    {
        Ddraw { coop_hwnd: 0, create_surface: None, set_coop: None, flip: None }
    }

    /// Detours the functions of an interface, each once. An interface without a
    /// table has none.
    pub fn wrap_ddraw<F: FnOnce() -> Option<usize>, G: FnOnce() -> Option<usize>>(
        &mut self,
        has_table: bool,
        attach_surface: F,
        attach_coop: G,
    )
        requires
            has_table && old(self).create_surface is None ==> call_requires(attach_surface, ()),
            has_table && old(self).set_coop is None ==> call_requires(attach_coop, ()),
        ensures
            final(self).coop_hwnd == old(self).coop_hwnd,
            final(self).flip == old(self).flip,
            if has_table && old(self).create_surface is None {
                call_ensures(attach_surface, (), final(self).create_surface)
            } else {
                final(self).create_surface == old(self).create_surface
            },
            if has_table && old(self).set_coop is None {
                call_ensures(attach_coop, (), final(self).set_coop)
            } else {
                final(self).set_coop == old(self).set_coop
            },
    {
        if !has_table {
            return ;
        }
        attach_vtbl(&mut self.create_surface, attach_surface);
        attach_vtbl(&mut self.set_coop, attach_coop);
    }

    /// Detours the flip of a surface that was created with `hr`, once. A surface
    /// without a table has none.
    pub fn wrap_surface<F: FnOnce() -> Option<usize>>(&mut self, hr: i32, has_table: bool, attach: F)
        requires
            hr >= 0 && has_table && old(self).flip is None ==> call_requires(attach, ()),
        ensures
            if hr >= 0 && has_table && old(self).flip is None {
                call_ensures(attach, (), final(self).flip) && *final(self) == (Ddraw {
                    flip: final(self).flip,
                    ..*old(self)
                })
            } else {
                *final(self) == *old(self)
            },
    {
        if hr >= 0 && has_table {
            attach_vtbl(&mut self.flip, attach);
        }
    }

    /// Remembers the window that the game cooperates in.
    pub fn set_coop(&mut self, hwnd: usize)
        ensures
            *final(self) == (Ddraw {
                coop_hwnd: if hwnd != 0 {
                    hwnd
                } else {
                    old(self).coop_hwnd
                },
                ..*old(self)
            }),
    {
        if hwnd != 0 {
            self.coop_hwnd = hwnd;
        }
    }
}

/// The seventh interface is told by all bytes of its name,
/// `15E65EC0-3B9C-11D2-B92F-00609797EA5B`.
pub proof fn law_seventh_interface_is_told_by_its_name(iid: Option<&[u8; 16]>, dd7: bool)
    requires
        call_ensures(is_dd7, (iid,), dd7),
    ensures
        iid is None ==> !dd7,
        iid matches Some(name) ==> (dd7 <==> name@ == dd7_name()),
{
    if let Some(name) = iid {
        let words = dd7_name();
        assert(words.take(8) =~= seq![0xC0, 0x5E, 0xE6, 0x15, 0x9C, 0x3B, 0xD2, 0x11]);
        assert(words.skip(8) =~= seq![0xB9, 0x2F, 0x00, 0x60, 0x97, 0x97, 0xEA, 0x5B]);
        assert(words =~= words.take(8) + words.skip(8));
        assert(name@ =~= name@.take(8) + name@.skip(8));
        if dd7 {
            crate::hook::combase::lemma_word_tells_its_bytes(name@.take(8), words.take(8));
            crate::hook::combase::lemma_word_tells_its_bytes(name@.skip(8), words.skip(8));
        }
    }
}

/// The name of the seventh interface, byte by byte.
pub open spec fn dd7_name() -> Seq<u8> {
    seq![
        0xC0,
        0x5E,
        0xE6,
        0x15,
        0x9C,
        0x3B,
        0xD2,
        0x11,
        0xB9,
        0x2F,
        0x00,
        0x60,
        0x97,
        0x97,
        0xEA,
        0x5B,
    ]
}

/// An interface is detoured if it was created in a place, and is not one that
/// was asked for by another name than that of the seventh.
pub proof fn law_known_interfaces_are_detoured(
    hr: i32,
    place: bool,
    by_name: bool,
    iid: Option<&[u8; 16]>,
    wrap: bool,
    dd7: bool,
)
    requires
        call_ensures(wraps, (hr, place, by_name, iid), wrap),
        call_ensures(is_dd7, (iid,), dd7),
    ensures
        wrap <==> (hr >= 0 && place && (by_name ==> dd7)),
{
}

/// Each function of an interface is detoured once, under its own place, and
/// neither the window nor the flip is touched.
pub proof fn law_interface_is_detoured_once<
    F: FnOnce() -> Option<usize>,
    G: FnOnce() -> Option<usize>,
>(ddraw: &mut Ddraw, has_table: bool, surface: F, coop: G)
    requires
        call_ensures(Ddraw::wrap_ddraw::<F, G>, (ddraw, has_table, surface, coop), ()),
    ensures
        final(ddraw).coop_hwnd == old(ddraw).coop_hwnd && final(ddraw).flip == old(ddraw).flip,
        !has_table ==> *final(ddraw) == *old(ddraw),
        old(ddraw).create_surface is Some ==> final(ddraw).create_surface == old(ddraw).create_surface,
        old(ddraw).set_coop is Some ==> final(ddraw).set_coop == old(ddraw).set_coop,
        has_table && old(ddraw).create_surface is None ==> call_ensures(
            surface,
            (),
            final(ddraw).create_surface,
        ),
        has_table && old(ddraw).set_coop is None ==> call_ensures(coop, (), final(ddraw).set_coop),
{
}

/// The flip is detoured once, through a surface that was created and has a
/// table; nothing else changes.
pub proof fn law_flip_is_detoured_once<F: FnOnce() -> Option<usize>>(
    ddraw: &mut Ddraw,
    hr: i32,
    has_table: bool,
    attach: F,
)
    requires
        call_ensures(Ddraw::wrap_surface::<F>, (ddraw, hr, has_table, attach), ()),
    ensures
        final(ddraw).coop_hwnd == old(ddraw).coop_hwnd,
        final(ddraw).create_surface == old(ddraw).create_surface,
        final(ddraw).set_coop == old(ddraw).set_coop,
        hr < 0 || !has_table || old(ddraw).flip is Some ==> final(ddraw).flip == old(ddraw).flip,
        hr >= 0 && has_table && old(ddraw).flip is None ==> call_ensures(
            attach,
            (),
            final(ddraw).flip,
        ),
{
}

/// The window that the game cooperates in is the last one that it named, and
/// none at first; naming none changes nothing, and no detour does.
pub proof fn law_last_window_counts(
    ddraw: &mut Ddraw,
    first: usize,
    next: &mut Ddraw,
    second: usize,
    fresh: Ddraw,
)
    requires
        call_ensures(Ddraw::new, (), fresh),
        call_ensures(Ddraw::set_coop, (ddraw, first), ()),
        *next == *final(ddraw),
        call_ensures(Ddraw::set_coop, (next, second), ()),
    ensures
        fresh.coop_hwnd == 0 && fresh.create_surface is None && fresh.set_coop is None && fresh.flip
            is None,
        final(next).coop_hwnd == (if second != 0 {
            second
        } else if first != 0 {
            first
        } else {
            old(ddraw).coop_hwnd
        }),
        final(next).create_surface == old(ddraw).create_surface,
        final(next).set_coop == old(ddraw).set_coop,
        final(next).flip == old(ddraw).flip,
{
}

/// A surface is created through the seventh function of an interface's table,
/// the game cooperates through the twenty-first, and a surface is flipped through
/// the twelfth function of its own.
pub proof fn law_places_in_tables()
    ensures
        CREATE_SURFACE_VTBL + 1 == 7,
        SET_COOP_VTBL + 1 == 21,
        FLIP_VTBL + 1 == 12,
{
}

} // verus!
