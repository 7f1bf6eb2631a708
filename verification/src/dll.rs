//! The overlay as a library that is loaded into a game.

use crate::hook::{install, HookGroup};
use vstd::prelude::*;

verus! {

/// Why the overlay could not be set up.
#[derive(Debug, PartialEq, Eq)]
pub enum InitError<E> {
    AlreadyInitialized,
    /// The message loop could not be detoured.
    Hook(E),
}

/// Sets the overlay up, once: `proc` detours the message loop, and what is
/// detoured after it is returned. The library counts as set up even where that
/// failed.
pub fn initialize<E>(
    instance: &mut Option<usize>,
    hinstance: usize,
    proc: impl FnOnce() -> Result<(), E>,
) -> (groups: Result<Vec<HookGroup>, InitError<E>>)
    requires
        *old(instance) is None ==> call_requires(proc, ()),
    ensures
        *old(instance) is Some ==> *final(instance) == *old(instance) && groups == Err::<
            Vec<HookGroup>,
            InitError<E>,
        >(InitError::AlreadyInitialized),
        *old(instance) is None ==> *final(instance) == Some(hinstance) && exists|
            done: Result<(), E>,
        | #[trigger]
            call_ensures(proc, (), done) && match done {
                Ok(_) => groups matches Ok(groups) && groups@ == crate::hook::hook_groups(),
                Err(error) => groups == Err::<Vec<HookGroup>, InitError<E>>(
                    InitError::Hook(error),
                ),
            },
{
    if instance.is_some() {
        return Err(InitError::AlreadyInitialized);
    }
    *instance = Some(hinstance);
    let done = proc();
    assert(call_ensures(proc, (), done));
    match install(done) {
        Ok(groups) => Ok(groups),
        Err(error) => Err(InitError::Hook(error)),
    }
}

/// The path of the overlay's own library: the first `len` units of what the
/// system wrote. A path that was cut off, or none, is not used.
pub fn own_path(written: &[u16], len: u32) -> (path: Option<Vec<u16>>)
    ensures
        path is Some <==> 0 < len && len < written@.len(),
        path matches Some(path) ==> path@ == written@.take(len as int),
{
    if len == 0 || len as usize >= written.len() {
        return None;
    }
    let mut path: Vec<u16> = Vec::new();
    path.extend_from_slice(vstd::slice::slice_subrange(written, 0, len as usize));
    assert(path@ =~= written@.take(len as int));
    Some(path)
}

/// How the overlay is brought into a child.
#[derive(Debug, Clone, Copy, PartialEq, Eq, Structural)]
pub enum InjectPlan {
    /// Through the handles of the child, which does not run yet.
    Stopped { process: usize, thread: usize },
    /// By the child's number.
    ByPid { pid: u32 },
}

/// How the overlay is brought into a child: through its handles, where both are
/// valid.
pub fn inject_plan(pid: u32, process: usize, thread: usize) -> (plan: InjectPlan)
    ensures
        plan == if !crate::hook::child::invalid_handle(process)
            && !crate::hook::child::invalid_handle(thread) {
            InjectPlan::Stopped { process, thread }
        } else {
            InjectPlan::ByPid { pid }
        },
{
    if process == 0 || process == usize::MAX || thread == 0 || thread == usize::MAX {
        InjectPlan::ByPid { pid }
    } else {
        InjectPlan::Stopped { process, thread }
    }
}

/// The overlay is set up once: the first attempt keeps the library's handle and detours
/// the message loop, and where that worked the rest follows, graphics first and library
/// loads last; where it did not, nothing follows. A later attempt is refused, and keeps
/// what there was.
pub proof fn law_overlay_is_set_up_once<E, P: FnOnce() -> Result<(), E>>(
    instance: &mut Option<usize>,
    handle: usize,
    proc: P,
    groups: Result<Vec<HookGroup>, InitError<E>>,
)
    requires
        call_ensures(initialize, (instance, handle, proc), groups),
    ensures
        *old(instance) is Some ==> *final(instance) == *old(instance) && groups is Err
            && groups->Err_0 is AlreadyInitialized,
        *old(instance) is None ==> *final(instance) == Some(handle),
        *old(instance) is None && groups is Ok ==> {
            &&& call_ensures(proc, (), Ok::<(), E>(()))
            &&& (groups->Ok_0)@.len() == 10
            &&& (groups->Ok_0)@[0] is Graphics
            &&& (groups->Ok_0)@[9] is Late
            &&& forall|i: int, j: int|
                0 <= i < j < 10 ==> (groups->Ok_0)@[i] != (groups->Ok_0)@[j]
        },
        *old(instance) is None && groups is Err ==> (groups->Err_0 matches InitError::Hook(error)
            && call_ensures(proc, (), Err::<(), E>(error))),
{
    if *old(instance) is None {
        let done = choose|done: Result<(), E>| #[trigger]
            call_ensures(proc, (), done) && match done {
                Ok(_) => groups matches Ok(groups) && groups@ == crate::hook::hook_groups(),
                Err(error) => groups == Err::<Vec<HookGroup>, InitError<E>>(
                    InitError::Hook(error),
                ),
            };
        if done is Ok {
            assert(done->Ok_0 == ());
        }
    }
}

/// The overlay's own path is what the system wrote, unit by unit, as long as it is whole:
/// longer than nothing and shorter than the room for it.
pub proof fn law_own_path_is_whole(written: Seq<u16>, room: &[u16], len: u32, path: Option<Vec<u16>>)
    requires
        room@ == written,
        call_ensures(own_path, (room, len), path),
    ensures
        path is Some <==> len > 0 && len < written.len(),
        path matches Some(path) ==> path@.len() == len && forall|i: int|
            0 <= i < len ==> #[trigger] path@[i] == written[i],
{
}

/// A child that did not start yet is entered through its handles where both are valid,
/// which neither 0 nor the greatest number is; else by its number.
pub proof fn law_child_is_entered_through_valid_handles(
    pid: u32,
    process: usize,
    thread: usize,
    plan: InjectPlan,
)
    requires
        call_ensures(inject_plan, (pid, process, thread), plan),
    ensures
        ({
            let valid = 0 < process < usize::MAX && 0 < thread < usize::MAX;
            &&& valid ==> plan == (InjectPlan::Stopped { process, thread })
            &&& !valid ==> plan == (InjectPlan::ByPid { pid })
        }),
{
}

} // verus!
