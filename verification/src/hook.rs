//! What the detoured functions of the system decide.

use vstd::prelude::*;

pub mod child;
pub mod combase;
pub mod d3d8;
pub mod ddraw;
pub mod dinput;
pub mod dx;
pub mod fg;
pub mod gameinput;
pub mod hid;
pub mod hotkey;
pub mod late;
pub mod mailbox;
pub mod mantle;
pub mod proc;
pub mod setupapi;
pub mod winmm;
pub mod xinput;

verus! {

/// The groups of functions that are detoured after those of the message loop.
#[derive(Debug, Clone, Copy, PartialEq, Eq, Structural)]
pub enum HookGroup {
    Graphics,
    Dinput,
    Xinput,
    Winmm,
    Hid,
    Setupapi,
    Gameinput,
    Combase,
    Child,
    Late,
}

/// All groups, in the order in which they are detoured.
pub open spec fn hook_groups() -> Seq<HookGroup> {
    seq![
        HookGroup::Graphics,
        HookGroup::Dinput,
        HookGroup::Xinput,
        HookGroup::Winmm,
        HookGroup::Hid,
        HookGroup::Setupapi,
        HookGroup::Gameinput,
        HookGroup::Combase,
        HookGroup::Child,
        HookGroup::Late,
    ]
}

/// What is detoured after the message loop, in this order. Where the message
/// loop could not be detoured, nothing else is.
pub fn install<E>(proc: Result<(), E>) -> (groups: Result<Vec<HookGroup>, E>)
    ensures
        match proc {
            Err(error) => groups == Err::<Vec<HookGroup>, E>(error),
            Ok(_) => groups matches Ok(groups) && groups@ == hook_groups(),
        },
{
    match proc {
        Err(error) => Err(error),
        Ok(_) => {
            let groups = vec![
                HookGroup::Graphics,
                HookGroup::Dinput,
                HookGroup::Xinput,
                HookGroup::Winmm,
                HookGroup::Hid,
                HookGroup::Setupapi,
                HookGroup::Gameinput,
                HookGroup::Combase,
                HookGroup::Child,
                HookGroup::Late,
            ];
            assert(groups@ =~= hook_groups());
            Ok(groups)
        },
    }
}

/// After the message loop every group is detoured, each once; where the message loop
/// could not be, none is.
pub proof fn law_every_group_is_detoured<E>(
    proc: Result<(), E>,
    groups: Result<Vec<HookGroup>, E>,
    group: HookGroup,
)
    requires
        call_ensures(install, (proc,), groups),
    ensures
        groups is Ok <==> proc is Ok,
        proc is Err ==> groups->Err_0 == proc->Err_0,
        groups matches Ok(groups) ==> groups@.len() == 10 && groups@.contains(group) && forall|
            i: int,
            j: int,
        |
            0 <= i < j < groups@.len() ==> groups@[i] != groups@[j],
{
    if let Ok(groups) = groups {
        match group {
            HookGroup::Graphics => assert(groups@[0] == group),
            HookGroup::Dinput => assert(groups@[1] == group),
            HookGroup::Xinput => assert(groups@[2] == group),
            HookGroup::Winmm => assert(groups@[3] == group),
            HookGroup::Hid => assert(groups@[4] == group),
            HookGroup::Setupapi => assert(groups@[5] == group),
            HookGroup::Gameinput => assert(groups@[6] == group),
            HookGroup::Combase => assert(groups@[7] == group),
            HookGroup::Child => assert(groups@[8] == group),
            HookGroup::Late => assert(groups@[9] == group),
        }
    }
}

} // verus!
