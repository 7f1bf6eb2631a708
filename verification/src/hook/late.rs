//! Libraries that the game loads late.
//!
//! Graphics libraries are detoured when they are there. A missing one is no
//! failure, and nothing is remembered of it: each library that is loaded later
//! has the detours tried again.

use vstd::prelude::*;

verus! {

/// What came of trying to detour a library.
#[derive(Debug, Clone, Copy, PartialEq, Eq, Structural)]
pub enum AttachWhenLoaded {
    Skipped,
    Attached,
    AlreadyAttached,
}

/// Detours a library once, when it is there.
pub fn attach_when_loaded<M, T>(
    module: Option<M>,
    cell: &mut Option<T>,
    make: impl FnOnce(M) -> T,
) -> (result: AttachWhenLoaded)
    requires
        *old(cell) is None ==> (module matches Some(module) ==> call_requires(make, (module,))),
    ensures
        *old(cell) is Some ==> *final(cell) == *old(cell) && result
            == AttachWhenLoaded::AlreadyAttached,
        *old(cell) is None && module is None ==> *final(cell) is None && result
            == AttachWhenLoaded::Skipped,
        *old(cell) is None && module is Some ==> *final(cell) is Some && call_ensures(
            make,
            (module->0,),
            (*final(cell))->0,
        ) && result == AttachWhenLoaded::Attached,
{
    if cell.is_some() {
        return AttachWhenLoaded::AlreadyAttached;
    }
    match module {
        None => AttachWhenLoaded::Skipped,
        Some(module) => {
            *cell = Some(make(module));
            AttachWhenLoaded::Attached
        },
    }
}

/// Detours a function of a table once; a failure is not remembered.
pub fn attach_vtbl<T>(cell: &mut Option<T>, attach: impl FnOnce() -> Option<T>)
    requires
        *old(cell) is None ==> call_requires(attach, ()),
    ensures
        *old(cell) is Some ==> *final(cell) == *old(cell),
        *old(cell) is None ==> call_ensures(attach, (), *final(cell)),
{
    if cell.is_none() {
        *cell = attach();
    }
}

/// Whether `after` is the real function behind one of the functions at `site`,
/// which is detoured unless `before` shows that it already is. Detouring may
/// fail.
pub open spec fn once<S, F: Fn(S) -> Option<usize>>(
    before: Option<usize>,
    attach: F,
    site: S,
    after: Option<usize>,
) -> bool {
    if before is Some {
        after == before
    } else {
        call_ensures(attach, (site,), after)
    }
}

/// Detours one of several functions, unless it already is.
pub fn attach_once<S, F: Fn(S) -> Option<usize>>(cell: &mut Option<usize>, attach: &F, site: S)
    requires
        *old(cell) is None ==> call_requires(*attach, (site,)),
    ensures
        once(*old(cell), *attach, site, *final(cell)),
{
    if cell.is_none() {
        *cell = attach(site);
    }
}

/// The parts of the graphics system that are detoured.
#[derive(Debug, Clone, Copy, PartialEq, Eq, Structural)]
pub enum GraphicsPart {
    Dx,
    FrameGeneration,
    D3d8,
    Ddraw,
    Opengl,
    Mantle,
}

/// All parts of the graphics system, in the order in which they are detoured.
pub open spec fn graphics_parts() -> Seq<GraphicsPart> {
    seq![
        GraphicsPart::Dx,
        GraphicsPart::FrameGeneration,
        GraphicsPart::D3d8,
        GraphicsPart::Ddraw,
        GraphicsPart::Opengl,
        GraphicsPart::Mantle,
    ]
}

/// The parts of the graphics system that are tried after a load, in this order.
/// Each skips what is missing and leaves alone what is detoured.
pub fn graphics_reinstall() -> (parts: Vec<GraphicsPart>)
    ensures
        parts@ == graphics_parts(),
{
    let parts = vec![
        GraphicsPart::Dx,
        GraphicsPart::FrameGeneration,
        GraphicsPart::D3d8,
        GraphicsPart::Ddraw,
        GraphicsPart::Opengl,
        GraphicsPart::Mantle,
    ];
    assert(parts@ =~= graphics_parts());
    parts
}

/// A function that loads libraries.
#[derive(Debug, Clone, Copy, PartialEq, Eq, Structural)]
pub enum LoadSite {
    KernelbaseExw,
    KernelbaseExa,
    Kernel32Exw,
    Kernel32Exa,
    Kernel32W,
    Kernel32A,
}

/// The real functions behind those that load libraries, each where it could be
/// detoured.
#[derive(Debug, Clone, Copy, PartialEq, Eq, Structural)]
pub struct Hooks {
    pub kernelbase_exw: Option<usize>,
    pub kernelbase_exa: Option<usize>,
    pub kernel32_exw: Option<usize>,
    pub kernel32_exa: Option<usize>,
    pub kernel32_w: Option<usize>,
    pub kernel32_a: Option<usize>,
}

impl Hooks {
    /// The real function behind one that loads libraries.
    pub open spec fn original(self, site: LoadSite) -> Option<usize> {
        match site {
            LoadSite::KernelbaseExw => self.kernelbase_exw,
            LoadSite::KernelbaseExa => self.kernelbase_exa,
            LoadSite::Kernel32Exw => self.kernel32_exw,
            LoadSite::Kernel32Exa => self.kernel32_exa,
            LoadSite::Kernel32W => self.kernel32_w,
            LoadSite::Kernel32A => self.kernel32_a,
        }
    }
}

/// Whether the graphics system is tried again for a load through a function. A
/// function that ends up in one that does so itself leaves it to that one.
pub open spec fn reinstalls(hooks: Option<Hooks>, site: LoadSite) -> bool {
    match site {
        LoadSite::KernelbaseExw => true,
        LoadSite::KernelbaseExa | LoadSite::Kernel32Exw | LoadSite::Kernel32W => !(hooks is Some
            && hooks->0.kernelbase_exw is Some),
        LoadSite::Kernel32Exa | LoadSite::Kernel32A => !(hooks is Some && hooks->0.kernelbase_exa
            is Some),
    }
}

/// Whether a load by a wide name has the graphics system tried again.
pub fn reinit_from_wide(hooks: &Option<Hooks>) -> (reinstall: bool)
    ensures
        reinstall == reinstalls(*hooks, LoadSite::Kernel32W),
{
    match hooks {
        Some(hooks) => hooks.kernelbase_exw.is_none(),
        None => true,
    }
}

/// Whether a load by a name in bytes has the graphics system tried again.
pub fn reinit_from_ansi(hooks: &Option<Hooks>) -> (reinstall: bool)
    ensures
        reinstall == reinstalls(*hooks, LoadSite::Kernel32A),
{
    match hooks {
        Some(hooks) => hooks.kernelbase_exa.is_none(),
        None => true,
    }
}

/// A detoured load: the library, and whether the graphics system is tried again,
/// with the last error of the thread kept. Without a real function nothing is
/// loaded.
pub fn load_library(hooks: &Hooks, site: LoadSite, call: impl FnOnce(usize) -> usize) -> (outcome: (
    usize,
    bool,
))
    requires
        hooks.original(site) matches Some(original) ==> call_requires(call, (original,)),
    ensures
        match hooks.original(site) {
            None => outcome.0 == 0 && !outcome.1,
            Some(original) => call_ensures(call, (original,), outcome.0) && outcome.1 == reinstalls(
                Some(*hooks),
                site,
            ),
        },
{
    let original = match site {
        LoadSite::KernelbaseExw => hooks.kernelbase_exw,
        LoadSite::KernelbaseExa => hooks.kernelbase_exa,
        LoadSite::Kernel32Exw => hooks.kernel32_exw,
        LoadSite::Kernel32Exa => hooks.kernel32_exa,
        LoadSite::Kernel32W => hooks.kernel32_w,
        LoadSite::Kernel32A => hooks.kernel32_a,
    };
    match original {
        None => (0, false),
        Some(original) => {
            let module: usize = call(original);
            let hooks = Some(*hooks);
            let reinstall = match site {
                LoadSite::KernelbaseExw => true,
                LoadSite::KernelbaseExa | LoadSite::Kernel32Exw | LoadSite::Kernel32W =>
                    reinit_from_wide(&hooks),
                LoadSite::Kernel32Exa | LoadSite::Kernel32A => reinit_from_ansi(&hooks),
            };
            (module, reinstall)
        },
    }
}

/// However a library is loaded by name, one of the functions on the way, each
/// ending up in the next, has the graphics system tried again, and only one
/// does: of the two in `kernel32` and the last in `kernelbase`, where that one
/// is detoured.
pub proof fn law_each_load_is_tried_once(hooks: Hooks)
    requires
        hooks.kernelbase_exw is Some,
    ensures
        reinstalls(Some(hooks), LoadSite::KernelbaseExw),
        !reinstalls(Some(hooks), LoadSite::KernelbaseExa),
        !reinstalls(Some(hooks), LoadSite::Kernel32Exw),
        !reinstalls(Some(hooks), LoadSite::Kernel32W),
        hooks.kernelbase_exa is Some ==> !reinstalls(Some(hooks), LoadSite::Kernel32Exa)
            && !reinstalls(Some(hooks), LoadSite::Kernel32A),
{
}

/// A library is detoured once: when it is there for the first time. What was
/// detoured is kept, and what is missing leaves nothing behind.
pub proof fn law_library_is_detoured_once<M, T, F: FnOnce(M) -> T>(
    module: Option<M>,
    cell: &mut Option<T>,
    make: F,
    result: AttachWhenLoaded,
)
    requires
        call_ensures(attach_when_loaded, (module, cell, make), result),
    ensures
        *old(cell) is Some ==> *final(cell) == *old(cell) && result is AlreadyAttached,
        *old(cell) is None ==> (*final(cell) is Some <==> module is Some) && (result is Attached
            <==> module is Some) && (result is Skipped <==> module is None),
        *old(cell) is None && module is Some ==> call_ensures(
            make,
            (module->0,),
            (*final(cell))->0,
        ),
{
}

/// A function of a table keeps the detour that it has; else it has what the
/// attempt gave.
pub proof fn law_table_is_detoured_once<T, F: FnOnce() -> Option<T>>(cell: &mut Option<T>, attach: F)
    requires
        call_ensures(attach_vtbl, (cell, attach), ()),
    ensures
        *old(cell) is Some ==> *final(cell) == *old(cell),
        *old(cell) is None ==> call_ensures(attach, (), *final(cell)),
{
}

/// One of several functions keeps the detour that it has; else it has what the
/// attempt at its own site gave.
pub proof fn law_site_is_detoured_once<S, F: Fn(S) -> Option<usize>>(
    cell: &mut Option<usize>,
    attach: F,
    site: S,
)
    requires
        call_ensures(attach_once::<S, F>, (cell, &attach, site), ()),
    ensures
        *old(cell) is Some ==> *final(cell) == *old(cell),
        *old(cell) is None ==> call_ensures(attach, (site,), *final(cell)),
{
}

/// After a load every part of the graphics system is tried, once each.
pub proof fn law_every_part_is_tried(parts: Vec<GraphicsPart>)
    requires
        call_ensures(graphics_reinstall, (), parts),
    ensures
        parts@.len() == 6,
        forall|part: GraphicsPart| #[trigger] parts@.contains(part),
        forall|i: int, j: int| 0 <= i < j < parts@.len() ==> parts@[i] != parts@[j],
        parts@[0] is Dx && parts@[1] is FrameGeneration && parts@[2] is D3d8 && parts@[3] is Ddraw
            && parts@[4] is Opengl && parts@[5] is Mantle,
{
    assert forall|part: GraphicsPart| #[trigger] parts@.contains(part) by {
        match part {
            GraphicsPart::Dx => assert(parts@[0] == part),
            GraphicsPart::FrameGeneration => assert(parts@[1] == part),
            GraphicsPart::D3d8 => assert(parts@[2] == part),
            GraphicsPart::Ddraw => assert(parts@[3] == part),
            GraphicsPart::Opengl => assert(parts@[4] == part),
            GraphicsPart::Mantle => assert(parts@[5] == part),
        }
    }
}

/// A load by a wide name leaves the graphics system to the last function for
/// wide names where that one is detoured, and one by a name in bytes to the
/// last function for those.
pub proof fn law_loads_are_left_to_the_last_function(hooks: Option<Hooks>, wide: bool, ansi: bool)
    requires
        call_ensures(reinit_from_wide, (&hooks,), wide),
        call_ensures(reinit_from_ansi, (&hooks,), ansi),
    ensures
        hooks is None ==> wide && ansi,
        hooks is Some ==> wide == hooks->0.kernelbase_exw is None && ansi
            == hooks->0.kernelbase_exa is None,
{
}

/// A load goes through the real function behind the one that was called, and
/// the graphics system is tried again after it unless a function further on
/// has done so. Without that real function nothing is loaded or tried.
pub proof fn law_load_goes_through_its_own_function<F: FnOnce(usize) -> usize>(
    hooks: Hooks,
    site: LoadSite,
    call: F,
    outcome: (usize, bool),
)
    requires
        call_ensures(load_library, (&hooks, site, call), outcome),
    ensures
        ({
            let original = match site {
                LoadSite::KernelbaseExw => hooks.kernelbase_exw,
                LoadSite::KernelbaseExa => hooks.kernelbase_exa,
                LoadSite::Kernel32Exw => hooks.kernel32_exw,
                LoadSite::Kernel32Exa => hooks.kernel32_exa,
                LoadSite::Kernel32W => hooks.kernel32_w,
                LoadSite::Kernel32A => hooks.kernel32_a,
            };
            &&& original is None ==> outcome.0 == 0 && !outcome.1
            &&& original is Some ==> call_ensures(call, (original->0,), outcome.0)
            &&& original is Some && site is KernelbaseExw ==> outcome.1
            &&& original is Some && (site is KernelbaseExa || site is Kernel32Exw
                || site is Kernel32W) ==> outcome.1 == hooks.kernelbase_exw is None
            &&& original is Some && (site is Kernel32Exa || site is Kernel32A) ==> outcome.1
                == hooks.kernelbase_exa is None
        }),
{
}

} // verus!
