//! Joysticks of the game.
//!
//! While the overlay is interactive, joysticks look centered to the game.

use vstd::prelude::*;

verus! {

pub const JOY_RETURNX: u32 = 0x1;

pub const JOY_RETURNY: u32 = 0x2;

pub const JOY_RETURNZ: u32 = 0x4;

pub const JOY_RETURNR: u32 = 0x8;

pub const JOY_RETURNU: u32 = 0x10;

pub const JOY_RETURNV: u32 = 0x20;

pub const JOY_RETURNPOV: u32 = 0x40;

pub const JOY_RETURNPOVCTS: u32 = 0x200;

pub const JOY_RETURNCENTERED: u32 = 0x400;

/// The middle of an axis.
pub const AXIS_CENTER: u32 = 0x7FFF;

/// A hat that points nowhere.
pub const POV_CENTERED: u32 = 0xFFFF;

pub const JOYERR_NOERROR: u32 = 0;

/// The answer where there is no place for a position.
pub const MMSYSERR_INVALPARAM: u32 = 11;

/// How many joysticks there are while the overlay is interactive.
pub const INTERACTIVE_DEVS: u32 = 4;

/// The position of a joystick, and what was asked of it.
#[derive(Debug, Clone, Copy, PartialEq, Eq, Structural)]
pub struct JoyInfoEx {
    pub size: u32,
    pub flags: u32,
    pub x: u32,
    pub y: u32,
    pub z: u32,
    pub r: u32,
    pub u: u32,
    pub v: u32,
    pub buttons: u32,
    pub button_number: u32,
    pub pov: u32,
    pub reserved1: u32,
    pub reserved2: u32,
}

impl Default for JoyInfoEx {
    fn default() -> (info: JoyInfoEx)
        ensures
            info == (JoyInfoEx {
                size: 0,
                flags: 0,
                x: 0,
                y: 0,
                z: 0,
                r: 0,
                u: 0,
                v: 0,
                buttons: 0,
                button_number: 0,
                pov: 0,
                reserved1: 0,
                reserved2: 0,
            }),
    {
        JoyInfoEx {
            size: 0,
            flags: 0,
            x: 0,
            y: 0,
            z: 0,
            r: 0,
            u: 0,
            v: 0,
            buttons: 0,
            button_number: 0,
            pov: 0,
            reserved1: 0,
            reserved2: 0,
        }
    }
}

/// Whether a value is asked for.
pub open spec fn asked(flags: u32, wanted: u32) -> bool {
    flags == JOY_RETURNCENTERED || flags & wanted != 0
}

/// A value after centering, if it is asked for.
pub open spec fn centered_value(flags: u32, wanted: u32, value: u32, center: u32) -> u32 {
    if asked(flags, wanted) {
        center
    } else {
        value
    }
}

/// A joystick that nobody touches, as far as it is asked for.
pub open spec fn centered(flags: u32, info: JoyInfoEx) -> JoyInfoEx {
    JoyInfoEx {
        x: centered_value(flags, JOY_RETURNX, info.x, AXIS_CENTER),
        y: centered_value(flags, JOY_RETURNY, info.y, AXIS_CENTER),
        z: centered_value(flags, JOY_RETURNZ, info.z, AXIS_CENTER),
        r: centered_value(flags, JOY_RETURNR, info.r, AXIS_CENTER),
        u: centered_value(flags, JOY_RETURNU, info.u, AXIS_CENTER),
        v: centered_value(flags, JOY_RETURNV, info.v, AXIS_CENTER),
        buttons: 0,
        button_number: 0,
        pov: centered_value(flags, JOY_RETURNPOV | JOY_RETURNPOVCTS, info.pov, POV_CENTERED),
        ..info
    }
}

/// Centers what is asked for of a joystick, and releases its buttons.
pub fn fill_centered(flags: u32, out: &mut JoyInfoEx)
    ensures
        *final(out) == centered(flags, *old(out)),
{
    let all = flags == JOY_RETURNCENTERED;
    if all || flags & JOY_RETURNX != 0 {
        out.x = AXIS_CENTER;
    }
    if all || flags & JOY_RETURNY != 0 {
        out.y = AXIS_CENTER;
    }
    if all || flags & JOY_RETURNZ != 0 {
        out.z = AXIS_CENTER;
    }
    if all || flags & JOY_RETURNR != 0 {
        out.r = AXIS_CENTER;
    }
    if all || flags & JOY_RETURNU != 0 {
        out.u = AXIS_CENTER;
    }
    if all || flags & JOY_RETURNV != 0 {
        out.v = AXIS_CENTER;
    }
    out.buttons = 0;
    out.button_number = 0;
    if all || flags & (JOY_RETURNPOV | JOY_RETURNPOVCTS) != 0 {
        out.pov = POV_CENTERED;
    }
}

/// How many joysticks there are: as many as the real function says, none without
/// one, and a fixed number while the overlay is interactive.
pub fn num_devs<F: FnOnce() -> u32>(original: Option<F>, interactive: bool) -> (count: u32)
    requires
        !interactive ==> (original matches Some(call) ==> call_requires(call, ())),
    ensures
        interactive ==> count == INTERACTIVE_DEVS,
        !interactive && original is None ==> count == 0,
        !interactive && original is Some ==> call_ensures(original->0, (), count),
{
    if interactive {
        return INTERACTIVE_DEVS;
    }
    match original {
        Some(call) => call(),
        None => 0,
    }
}

/// The position of a joystick: the answer, and what stands in the place for it,
/// if there is one. While the overlay is interactive the joystick is centered.
pub fn pos_ex(
    place: Option<JoyInfoEx>,
    interactive: bool,
    call: impl FnOnce(Option<JoyInfoEx>) -> (u32, Option<JoyInfoEx>),
) -> (outcome: (u32, Option<JoyInfoEx>))
    requires
        !interactive ==> call_requires(call, (place,)),
    ensures
        interactive && place is None ==> outcome.0 == MMSYSERR_INVALPARAM && outcome.1 is None,
        interactive && place is Some ==> outcome.0 == JOYERR_NOERROR && outcome.1 == Some(
            centered((place->0).flags, place->0),
        ),
        !interactive ==> call_ensures(call, (place,), outcome),
{
    if interactive {
        match place {
            None => (MMSYSERR_INVALPARAM, None),
            Some(info) => {
                let mut out = info;
                fill_centered(info.flags, &mut out);
                (JOYERR_NOERROR, Some(out))
            },
        }
    } else {
        call(place)
    }
}

/// The functions that are detoured.
#[derive(Debug, Clone, Copy, PartialEq, Eq, Structural)]
pub enum Export {
    NumDevs,
    CapsA,
    CapsW,
    PosEx,
}

/// The real functions behind the detours, each where it could be detoured.
#[derive(Debug, Clone, Copy, PartialEq, Eq, Structural)]
pub struct Hooks {
    pub num_devs: Option<usize>,
    pub caps_a: Option<usize>,
    pub caps_w: Option<usize>,
    pub pos_ex: Option<usize>,
}

impl Hooks {
    /// The real function behind a detour.
    pub open spec fn original(self, export: Export) -> Option<usize> {
        match export {
            Export::NumDevs => self.num_devs,
            Export::CapsA => self.caps_a,
            Export::CapsW => self.caps_w,
            Export::PosEx => self.pos_ex,
        }
    }

    /// Nothing is detoured.
    pub fn empty() -> (hooks: Hooks)
        ensures
            hooks == (Hooks { num_devs: None, caps_a: None, caps_w: None, pos_ex: None }),
    {
        Hooks { num_devs: None, caps_a: None, caps_w: None, pos_ex: None }
    }

    /// Whether anything is detoured.
    pub fn any_attached(&self) -> (attached: bool)
        ensures
            attached == (self.num_devs is Some || self.caps_a is Some || self.caps_w is Some
                || self.pos_ex is Some),
    {
        self.num_devs.is_some() || self.caps_a.is_some() || self.caps_w.is_some()
            || self.pos_ex.is_some()
    }
}

/// Detours the functions of the library, where it is loaded. Those that the
/// library lacks are left out.
pub fn hook<F: Fn(Export, usize) -> Option<usize>>(module: Option<usize>, attach: F) -> (hooks:
    Hooks)
    requires
        module matches Some(module) ==> forall|export: Export| #[trigger]
            call_requires(attach, (export, module)),
    ensures
        module is None ==> forall|export: Export| (#[trigger] hooks.original(export)) is None,
        module is Some ==> forall|export: Export|
            call_ensures(attach, (export, module->0), #[trigger] hooks.original(export)),
{
    match module {
        None => Hooks::empty(),
        Some(module) => Hooks {
            num_devs: attach(Export::NumDevs, module),
            caps_a: attach(Export::CapsA, module),
            caps_w: attach(Export::CapsW, module),
            pos_ex: attach(Export::PosEx, module),
        },
    }
}

/// Centering leaves a centered joystick as it is, and touches nothing that was
/// not asked for but the buttons.
pub proof fn law_centering_is_stable(flags: u32, info: JoyInfoEx)
    ensures
        centered(flags, centered(flags, info)) == centered(flags, info),
        centered(flags, info).flags == info.flags,
        centered(flags, info).size == info.size,
        centered(0, info) == (JoyInfoEx { buttons: 0, button_number: 0, ..info }),
{
    assert(forall|wanted: u32| 0u32 & wanted == 0) by (bit_vector);
}

/// A centered joystick has the axes that are asked for in the middle, at 32767,
/// each by its own bit, the hat at 65535 by the seventh or the tenth bit, and no
/// button down. What is not asked for stays; with the eleventh bit alone
/// everything is asked for.
pub proof fn law_joystick_is_centered_as_asked(flags: u32, out: &mut JoyInfoEx)
    requires
        call_ensures(fill_centered, (flags, out), ()),
    ensures
        ({
            let all = flags == 0x400;
            &&& final(out).x == (if all || flags & 1 != 0 {
                32767
            } else {
                old(out).x
            })
            &&& final(out).y == (if all || flags & 2 != 0 {
                32767
            } else {
                old(out).y
            })
            &&& final(out).z == (if all || flags & 4 != 0 {
                32767
            } else {
                old(out).z
            })
            &&& final(out).r == (if all || flags & 8 != 0 {
                32767
            } else {
                old(out).r
            })
            &&& final(out).u == (if all || flags & 16 != 0 {
                32767
            } else {
                old(out).u
            })
            &&& final(out).v == (if all || flags & 32 != 0 {
                32767
            } else {
                old(out).v
            })
            &&& final(out).pov == (if all || flags & 64 != 0 || flags & 512 != 0 {
                65535
            } else {
                old(out).pov
            })
        }),
        final(out).buttons == 0 && final(out).button_number == 0,
        final(out).size == old(out).size && final(out).flags == old(out).flags,
        final(out).reserved1 == old(out).reserved1 && final(out).reserved2 == old(out).reserved2,
{
    assert((flags & (0x40u32 | 0x200u32) != 0) == (flags & 64 != 0 || flags & 512 != 0)) by (bit_vector);
}

/// There are four joysticks while the overlay is interactive; else as many as
/// the real function says, and none without one.
pub proof fn law_four_joysticks_while_interactive<F: FnOnce() -> u32>(
    original: Option<F>,
    interactive: bool,
    count: u32,
)
    requires
        call_ensures(num_devs::<F>, (original, interactive), count),
    ensures
        interactive ==> count == 4,
        !interactive && original is Some ==> call_ensures(original->0, (), count),
        !interactive && original is None ==> count == 0,
{
}

/// While the overlay is interactive a position is the one that stood in its
/// place, centered as its own flags ask, successfully; without a place the
/// answer is 11. Else the real function tells.
pub proof fn law_position_is_centered_while_interactive<
    F: FnOnce(Option<JoyInfoEx>) -> (u32, Option<JoyInfoEx>),
>(
    place: Option<JoyInfoEx>,
    interactive: bool,
    call: F,
    outcome: (u32, Option<JoyInfoEx>),
    info: &mut JoyInfoEx,
)
    requires
        call_ensures(pos_ex, (place, interactive, call), outcome),
        place is Some ==> *info == place->0,
        place is Some ==> call_ensures(fill_centered, (place->0.flags, info), ()),
    ensures
        !interactive ==> call_ensures(call, (place,), outcome),
        interactive && place is None ==> outcome.0 == 11 && outcome.1 is None,
        interactive && place is Some ==> outcome.0 == 0 && outcome.1 == Some(*final(info)),
{
}

/// Each function of a loaded library is detoured under its own place; without
/// the library nothing is. Any of them counts.
pub proof fn law_each_export_has_its_place<F: Fn(Export, usize) -> Option<usize>>(
    module: Option<usize>,
    attach: F,
    hooks: Hooks,
    attached: bool,
)
    requires
        call_ensures(hook::<F>, (module, attach), hooks),
        call_ensures(Hooks::any_attached, (&hooks,), attached),
    ensures
        module is Some ==> call_ensures(attach, (Export::NumDevs, module->0), hooks.num_devs)
            && call_ensures(attach, (Export::CapsA, module->0), hooks.caps_a) && call_ensures(
            attach,
            (Export::CapsW, module->0),
            hooks.caps_w,
        ) && call_ensures(attach, (Export::PosEx, module->0), hooks.pos_ex),
        module is None ==> hooks.num_devs is None && hooks.caps_a is None && hooks.caps_w is None
            && hooks.pos_ex is None,
        !attached <==> (hooks.num_devs is None && hooks.caps_a is None && hooks.caps_w is None
            && hooks.pos_ex is None),
{
    assert(hooks.original(Export::NumDevs) == hooks.num_devs);
    assert(hooks.original(Export::CapsA) == hooks.caps_a);
    assert(hooks.original(Export::CapsW) == hooks.caps_w);
    assert(hooks.original(Export::PosEx) == hooks.pos_ex);
}

/// Nothing is detoured at first, and a position that was not read is all zero.
pub proof fn law_nothing_is_detoured_at_first(hooks: Hooks, attached: bool, info: JoyInfoEx)
    requires
        call_ensures(Hooks::empty, (), hooks),
        call_ensures(Hooks::any_attached, (&hooks,), attached),
        call_ensures(JoyInfoEx::default, (), info),
    ensures
        !attached,
        info.size == 0 && info.flags == 0 && info.buttons == 0 && info.button_number == 0,
        info.x == 0 && info.y == 0 && info.z == 0 && info.r == 0 && info.u == 0 && info.v == 0,
        info.pov == 0 && info.reserved1 == 0 && info.reserved2 == 0,
{
}

} // verus!
