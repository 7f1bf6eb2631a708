//! XInput pads of the game.
//!
//! While the overlay is interactive, pads look idle to the game.

use vstd::prelude::*;

verus! {

pub const ERROR_SUCCESS: u32 = 0;

pub const ERROR_EMPTY: u32 = 4306;

pub const ERROR_DEVICE_NOT_CONNECTED: u32 = 1167;

pub const VER_11: u32 = 11;

pub const VER_12: u32 = 12;

pub const VER_13: u32 = 13;

pub const VER_14: u32 = 14;

/// Buttons, triggers and thumbs of a pad.
#[derive(Debug, Clone, Copy, PartialEq, Eq, Structural)]
pub struct XInputGamepad {
    pub w_buttons: u16,
    pub b_left_trigger: u8,
    pub b_right_trigger: u8,
    pub s_thumb_lx: i16,
    pub s_thumb_ly: i16,
    pub s_thumb_rx: i16,
    pub s_thumb_ry: i16,
}

/// A pad that nobody touches.
pub open spec fn idle() -> XInputGamepad {
    XInputGamepad {
        w_buttons: 0,
        b_left_trigger: 0,
        b_right_trigger: 0,
        s_thumb_lx: 0,
        s_thumb_ly: 0,
        s_thumb_rx: 0,
        s_thumb_ry: 0,
    }
}

impl Default for XInputGamepad {
    fn default() -> (pad: XInputGamepad)
        ensures
            pad == idle(),
    {
        XInputGamepad {
            w_buttons: 0,
            b_left_trigger: 0,
            b_right_trigger: 0,
            s_thumb_lx: 0,
            s_thumb_ly: 0,
            s_thumb_rx: 0,
            s_thumb_ry: 0,
        }
    }
}

/// The state of a pad, and the number of the packet that it came in.
#[derive(Debug, Clone, Copy, PartialEq, Eq, Structural)]
pub struct XInputState {
    pub dw_packet_number: u32,
    pub gamepad: XInputGamepad,
}

/// A key of a pad that goes down or up.
#[derive(Debug, Clone, Copy, PartialEq, Eq, Structural)]
pub struct XInputKeystroke {
    pub virtual_key: u16,
    pub unicode: u16,
    pub flags: u16,
    pub user_index: u8,
    pub hid_code: u8,
}

/// No keystroke.
pub open spec fn no_keystroke() -> XInputKeystroke {
    XInputKeystroke { virtual_key: 0, unicode: 0, flags: 0, user_index: 0, hid_code: 0 }
}

/// The state of a pad as the game gets to see it.
pub open spec fn seen(state: XInputState, interactive: bool) -> XInputState {
    if interactive {
        XInputState { gamepad: idle(), ..state }
    } else {
        state
    }
}

/// Makes the state of a pad what the game gets to see. The packet keeps its
/// number.
pub fn mask_get_state(state: &mut XInputState, interactive: bool)
    ensures
        *final(state) == seen(*old(state), interactive),
{
    if !interactive {
        return ;
    }
    state.gamepad.w_buttons = 0;
    state.gamepad.b_left_trigger = 0;
    state.gamepad.b_right_trigger = 0;
    state.gamepad.s_thumb_lx = 0;
    state.gamepad.s_thumb_ly = 0;
    state.gamepad.s_thumb_rx = 0;
    state.gamepad.s_thumb_ry = 0;
}

/// Reads the state of a pad. `place` is what stands where the state goes, if
/// there is such a place; the real function answers, and tells what stands
/// there then. Without a real function no pad is connected.
pub fn apply_get_state<F: FnOnce(Option<XInputState>) -> (u32, Option<XInputState>)>(
    original: Option<F>,
    place: Option<XInputState>,
    interactive: bool,
) -> (outcome: (u32, Option<XInputState>))
    requires
        original matches Some(read) ==> call_requires(read, (place,)),
    ensures
        original is None ==> outcome.0 == ERROR_DEVICE_NOT_CONNECTED && outcome.1 == place,
        original is Some ==> exists|answer: (u32, Option<XInputState>)| #[trigger]
            call_ensures(original->0, (place,), answer) && outcome.0 == answer.0 && outcome.1
                == match answer.1 {
                Some(state) if answer.0 == ERROR_SUCCESS => Some(seen(state, interactive)),
                _ => answer.1,
            },
{
    match original {
        None => (ERROR_DEVICE_NOT_CONNECTED, place),
        Some(read) => {
            let answer = read(place);
            assert(call_ensures(read, (place,), answer));
            match answer.1 {
                Some(state) => {
                    let mut state = state;
                    if answer.0 == ERROR_SUCCESS {
                        mask_get_state(&mut state, interactive);
                    }
                    (answer.0, Some(state))
                },
                None => answer,
            }
        },
    }
}

/// Sets the motors of a pad. While the overlay is interactive this does nothing,
/// successfully.
pub fn apply_set_state<F: FnOnce() -> u32>(original: Option<F>, interactive: bool) -> (answer: u32)
    requires
        !interactive ==> (original matches Some(set) ==> call_requires(set, ())),
    ensures
        interactive ==> answer == ERROR_SUCCESS,
        !interactive && original is None ==> answer == ERROR_DEVICE_NOT_CONNECTED,
        !interactive && original is Some ==> call_ensures(original->0, (), answer),
{
    if interactive {
        return ERROR_SUCCESS;
    }
    match original {
        Some(set) => set(),
        None => ERROR_DEVICE_NOT_CONNECTED,
    }
}

/// Takes a keystroke of a pad. `place` is what stands where the keystroke goes,
/// if there is such a place. While the overlay is interactive the keystroke is
/// taken and forgotten.
pub fn apply_get_keystroke<
    F: FnOnce(Option<XInputKeystroke>) -> (u32, Option<XInputKeystroke>),
>(original: Option<F>, place: Option<XInputKeystroke>, interactive: bool) -> (outcome: (
    u32,
    Option<XInputKeystroke>,
))
    requires
        original matches Some(take) ==> call_requires(take, (place,)),
    ensures
        interactive ==> outcome.0 == ERROR_EMPTY && outcome.1 == if place is Some {
            Some(no_keystroke())
        } else {
            None
        },
        interactive && original is Some ==> exists|forgotten: (u32, Option<XInputKeystroke>)|
            #[trigger] call_ensures(original->0, (place,), forgotten),
        !interactive && original is None ==> outcome.0 == ERROR_EMPTY && outcome.1 == place,
        !interactive && original is Some ==> call_ensures(original->0, (place,), outcome),
{
    if interactive {
        if let Some(take) = original {
            let forgotten = take(place);
            assert(call_ensures(take, (place,), forgotten));
        }
        let emptied = match place {
            Some(_) => Some(
                XInputKeystroke {
                    virtual_key: 0,
                    unicode: 0,
                    flags: 0,
                    user_index: 0,
                    hid_code: 0,
                },
            ),
            None => None,
        };
        return (ERROR_EMPTY, emptied);
    }
    match original {
        Some(take) => take(place),
        None => (ERROR_EMPTY, place),
    }
}

/// What the other functions answer: what the real function does, and without one
/// that no pad is connected.
pub fn apply_passthrough<F: FnOnce() -> u32>(original: Option<F>) -> (answer: u32)
    requires
        original matches Some(call) ==> call_requires(call, ()),
    ensures
        original is None ==> answer == ERROR_DEVICE_NOT_CONNECTED,
        original is Some ==> call_ensures(original->0, (), answer),
{
    match original {
        Some(call) => call(),
        None => ERROR_DEVICE_NOT_CONNECTED,
    }
}

/// The functions of a version that are detoured.
#[derive(Debug, Clone, Copy, PartialEq, Eq, Structural)]
pub enum Export {
    GetState,
    GetStateEx,
    SetState,
    GetKeystroke,
    GetCaps,
    Enable,
    Audio,
    Battery,
    CapsEx,
    Dsound,
}

/// The real functions behind the detours of a version, each where it could be
/// detoured.
#[derive(Debug, Clone, Copy, PartialEq, Eq, Structural)]
pub struct XInputHooks {
    pub get_state: Option<usize>,
    pub get_state_ex: Option<usize>,
    pub set_state: Option<usize>,
    pub get_keystroke: Option<usize>,
    pub get_caps: Option<usize>,
    pub enable: Option<usize>,
    pub audio: Option<usize>,
    pub battery: Option<usize>,
    pub caps_ex: Option<usize>,
    pub dsound: Option<usize>,
}

impl XInputHooks {
    /// The real function behind a detour.
    pub open spec fn original(self, export: Export) -> Option<usize> {
        match export {
            Export::GetState => self.get_state,
            Export::GetStateEx => self.get_state_ex,
            Export::SetState => self.set_state,
            Export::GetKeystroke => self.get_keystroke,
            Export::GetCaps => self.get_caps,
            Export::Enable => self.enable,
            Export::Audio => self.audio,
            Export::Battery => self.battery,
            Export::CapsEx => self.caps_ex,
            Export::Dsound => self.dsound,
        }
    }
}

/// Nothing of a version is detoured.
pub fn empty_hooks() -> (hooks: XInputHooks)
    ensures
        forall|export: Export| (#[trigger] hooks.original(export)) is None,
{
    XInputHooks {
        get_state: None,
        get_state_ex: None,
        set_state: None,
        get_keystroke: None,
        get_caps: None,
        enable: None,
        audio: None,
        battery: None,
        caps_ex: None,
        dsound: None,
    }
}

/// Detours the functions of a version, where its library is loaded. Those that
/// the library lacks are left out.
pub fn hook_version<F: Fn(Export, usize) -> Option<usize>>(module: Option<usize>, attach: F) -> (
hooks: XInputHooks)
    requires
        module matches Some(module) ==> forall|export: Export| #[trigger]
            call_requires(attach, (export, module)),
    ensures
        module is None ==> forall|export: Export| (#[trigger] hooks.original(export)) is None,
        module is Some ==> forall|export: Export|
            call_ensures(attach, (export, module->0), #[trigger] hooks.original(export)),
{
    match module {
        None => empty_hooks(),
        Some(module) => XInputHooks {
            get_state: attach(Export::GetState, module),
            get_state_ex: attach(Export::GetStateEx, module),
            set_state: attach(Export::SetState, module),
            get_keystroke: attach(Export::GetKeystroke, module),
            get_caps: attach(Export::GetCaps, module),
            enable: attach(Export::Enable, module),
            audio: attach(Export::Audio, module),
            battery: attach(Export::Battery, module),
            caps_ex: attach(Export::CapsEx, module),
            dsound: attach(Export::Dsound, module),
        },
    }
}

/// What is detoured of each version.
#[derive(Debug, Clone, Copy, PartialEq, Eq, Structural)]
pub struct AllHooks {
    pub v11: XInputHooks,
    pub v12: XInputHooks,
    pub v13: XInputHooks,
    pub v14: XInputHooks,
}

/// What is detoured of a version.
pub fn hooks(all: &AllHooks, ver: u32) -> (found: Option<XInputHooks>)
    ensures
        found == if ver == VER_11 {
            Some(all.v11)
        } else if ver == VER_12 {
            Some(all.v12)
        } else if ver == VER_13 {
            Some(all.v13)
        } else if ver == VER_14 {
            Some(all.v14)
        } else {
            None
        },
{
    match ver {
        VER_11 => Some(all.v11),
        VER_12 => Some(all.v12),
        VER_13 => Some(all.v13),
        VER_14 => Some(all.v14),
        _ => None,
    }
}

/// While the overlay is interactive the game sees every pad idle; else it sees
/// what the pad reported. The packet keeps its number.
pub proof fn law_pads_are_idle_while_interactive(state: XInputState)
    ensures
        seen(state, true).gamepad == idle(),
        seen(state, true).dw_packet_number == state.dw_packet_number,
        seen(state, false) == state,
{
}

/// While the overlay is interactive a pad has no button down, no trigger pulled
/// and both thumbs in the middle; its packet keeps its number. Else it is as it
/// was reported.
pub proof fn law_pad_is_untouched_while_interactive(state: &mut XInputState, interactive: bool)
    requires
        call_ensures(mask_get_state, (state, interactive), ()),
    ensures
        final(state).dw_packet_number == old(state).dw_packet_number,
        !interactive ==> final(state).gamepad == old(state).gamepad,
        interactive ==> ({
            let pad = final(state).gamepad;
            &&& pad.w_buttons == 0
            &&& pad.b_left_trigger == 0 && pad.b_right_trigger == 0
            &&& pad.s_thumb_lx == 0 && pad.s_thumb_ly == 0
            &&& pad.s_thumb_rx == 0 && pad.s_thumb_ry == 0
        }),
{
}

/// A pad is read by the real function. What was read is hidden while the
/// overlay is interactive, if the reading succeeded; a failure and its place
/// pass as they are. Without a real function the answer is 1167, and the place
/// stays.
pub proof fn law_read_pad_is_hidden_while_interactive<
    F: FnOnce(Option<XInputState>) -> (u32, Option<XInputState>),
>(
    original: Option<F>,
    place: Option<XInputState>,
    interactive: bool,
    outcome: (u32, Option<XInputState>),
)
    requires
        call_ensures(apply_get_state::<F>, (original, place, interactive), outcome),
    ensures
        original is None ==> outcome.0 == 1167 && outcome.1 == place,
        original is Some ==> exists|answer: (u32, Option<XInputState>)| #[trigger]
            call_ensures(original->0, (place,), answer) && outcome.0 == answer.0 && (outcome.1
                is Some <==> answer.1 is Some) && (answer.0 != 0 || !interactive ==> outcome.1
                == answer.1) && (answer.0 == 0 && interactive && answer.1 is Some ==> (
            outcome.1->0.dw_packet_number == answer.1->0.dw_packet_number
                && outcome.1->0.gamepad.w_buttons == 0 && outcome.1->0.gamepad.b_left_trigger == 0
                && outcome.1->0.gamepad.b_right_trigger == 0 && outcome.1->0.gamepad.s_thumb_lx
                == 0 && outcome.1->0.gamepad.s_thumb_ly == 0 && outcome.1->0.gamepad.s_thumb_rx
                == 0 && outcome.1->0.gamepad.s_thumb_ry == 0)),
{
    if original is Some {
        let answer = choose|answer: (u32, Option<XInputState>)| #[trigger]
            call_ensures(original->0, (place,), answer) && outcome.0 == answer.0 && outcome.1
                == match answer.1 {
                Some(state) if answer.0 == ERROR_SUCCESS => Some(seen(state, interactive)),
                _ => answer.1,
            };
        assert(call_ensures(original->0, (place,), answer));
    }
}

/// Motors are not set while the overlay is interactive, successfully; else the
/// real function sets them, and without one the answer is 1167. Other functions
/// do not ask whether it is.
pub proof fn law_motors_rest_while_interactive<F: FnOnce() -> u32, G: FnOnce() -> u32>(
    original: Option<F>,
    interactive: bool,
    answer: u32,
    other: Option<G>,
    passed: u32,
)
    requires
        call_ensures(apply_set_state::<F>, (original, interactive), answer),
        call_ensures(apply_passthrough::<G>, (other,), passed),
    ensures
        interactive ==> answer == 0,
        !interactive && original is Some ==> call_ensures(original->0, (), answer),
        !interactive && original is None ==> answer == 1167,
        other is Some ==> call_ensures(other->0, (), passed),
        other is None ==> passed == 1167,
{
}

/// While the overlay is interactive there is no keystroke: the answer is 4306,
/// and what stands in the place for it is all zero, though the real function
/// was asked. Else that function answers, and without one there is none.
pub proof fn law_keystrokes_are_forgotten_while_interactive<
    F: FnOnce(Option<XInputKeystroke>) -> (u32, Option<XInputKeystroke>),
>(
    original: Option<F>,
    place: Option<XInputKeystroke>,
    interactive: bool,
    outcome: (u32, Option<XInputKeystroke>),
)
    requires
        call_ensures(apply_get_keystroke::<F>, (original, place, interactive), outcome),
    ensures
        interactive ==> outcome.0 == 4306 && (outcome.1 is Some <==> place is Some),
        interactive && place is Some ==> outcome.1->0.virtual_key == 0 && outcome.1->0.unicode == 0
            && outcome.1->0.flags == 0 && outcome.1->0.user_index == 0 && outcome.1->0.hid_code
            == 0,
        interactive && original is Some ==> exists|forgotten: (u32, Option<XInputKeystroke>)|
            #[trigger] call_ensures(original->0, (place,), forgotten),
        !interactive && original is Some ==> call_ensures(original->0, (place,), outcome),
        !interactive && original is None ==> outcome.0 == 4306 && outcome.1 == place,
{
}

/// Each function of a loaded version is detoured under its own place; without
/// the library nothing is.
pub proof fn law_each_export_has_its_place<F: Fn(Export, usize) -> Option<usize>>(
    module: Option<usize>,
    attach: F,
    hooks: XInputHooks,
    fresh: XInputHooks,
)
    requires
        call_ensures(hook_version::<F>, (module, attach), hooks),
        call_ensures(empty_hooks, (), fresh),
    ensures
        module is Some ==> call_ensures(attach, (Export::GetState, module->0), hooks.get_state)
            && call_ensures(attach, (Export::GetStateEx, module->0), hooks.get_state_ex)
            && call_ensures(attach, (Export::SetState, module->0), hooks.set_state)
            && call_ensures(attach, (Export::GetKeystroke, module->0), hooks.get_keystroke)
            && call_ensures(attach, (Export::GetCaps, module->0), hooks.get_caps) && call_ensures(
            attach,
            (Export::Enable, module->0),
            hooks.enable,
        ) && call_ensures(attach, (Export::Audio, module->0), hooks.audio) && call_ensures(
            attach,
            (Export::Battery, module->0),
            hooks.battery,
        ) && call_ensures(attach, (Export::CapsEx, module->0), hooks.caps_ex) && call_ensures(
            attach,
            (Export::Dsound, module->0),
            hooks.dsound,
        ),
        module is None ==> hooks == fresh,
        fresh.get_state is None && fresh.get_state_ex is None && fresh.set_state is None
            && fresh.get_keystroke is None && fresh.get_caps is None && fresh.enable is None
            && fresh.audio is None && fresh.battery is None && fresh.caps_ex is None && fresh.dsound
            is None,
{
    assert(hooks.original(Export::GetState) == hooks.get_state);
    assert(hooks.original(Export::GetStateEx) == hooks.get_state_ex);
    assert(hooks.original(Export::SetState) == hooks.set_state);
    assert(hooks.original(Export::GetKeystroke) == hooks.get_keystroke);
    assert(hooks.original(Export::GetCaps) == hooks.get_caps);
    assert(hooks.original(Export::Enable) == hooks.enable);
    assert(hooks.original(Export::Audio) == hooks.audio);
    assert(hooks.original(Export::Battery) == hooks.battery);
    assert(hooks.original(Export::CapsEx) == hooks.caps_ex);
    assert(hooks.original(Export::Dsound) == hooks.dsound);
    assert(fresh.original(Export::GetState) == fresh.get_state);
    assert(fresh.original(Export::GetStateEx) == fresh.get_state_ex);
    assert(fresh.original(Export::SetState) == fresh.set_state);
    assert(fresh.original(Export::GetKeystroke) == fresh.get_keystroke);
    assert(fresh.original(Export::GetCaps) == fresh.get_caps);
    assert(fresh.original(Export::Enable) == fresh.enable);
    assert(fresh.original(Export::Audio) == fresh.audio);
    assert(fresh.original(Export::Battery) == fresh.battery);
    assert(fresh.original(Export::CapsEx) == fresh.caps_ex);
    assert(fresh.original(Export::Dsound) == fresh.dsound);
}

/// The versions 11 to 14 have each their own detours, and no other has any.
pub proof fn law_versions_are_told_apart(all: AllHooks, ver: u32, found: Option<XInputHooks>)
    requires
        call_ensures(hooks, (&all, ver), found),
    ensures
        ver == 11 ==> found == Some(all.v11),
        ver == 12 ==> found == Some(all.v12),
        ver == 13 ==> found == Some(all.v13),
        ver == 14 ==> found == Some(all.v14),
        ver < 11 || ver > 14 ==> found is None,
{
}

/// A pad that was not read is one that nobody touches.
pub proof fn law_unread_pad_is_untouched(pad: XInputGamepad)
    requires
        call_ensures(XInputGamepad::default, (), pad),
    ensures
        pad.w_buttons == 0 && pad.b_left_trigger == 0 && pad.b_right_trigger == 0,
        pad.s_thumb_lx == 0 && pad.s_thumb_ly == 0 && pad.s_thumb_rx == 0 && pad.s_thumb_ry == 0,
{
}

} // verus!
