//! Factories of swap chains.

use crate::hook::late::attach_once;
use vstd::prelude::*;

verus! {

/// The functions that are detoured.
#[derive(Debug, Clone, Copy, PartialEq, Eq, Structural)]
pub enum Site {
    CreateFactory,
    CreateFactory1,
    CreateFactory2,
    CreateSwapChain,
    ForHwnd,
    ForCore,
    ForComp,
}

/// The real functions behind the detours, each where it could be detoured.
#[derive(Debug, Clone, Copy, PartialEq, Eq, Structural)]
pub struct Hooks {
    pub create_factory: Option<usize>,
    pub create_factory1: Option<usize>,
    pub create_factory2: Option<usize>,
    pub create_swap_chain: Option<usize>,
    pub for_hwnd: Option<usize>,
    pub for_core: Option<usize>,
    pub for_comp: Option<usize>,
}

/// Whether a function is detoured, where `wanted`, and else left alone.
pub open spec fn tried<F: Fn(Site) -> Option<usize>>(
    wanted: bool,
    before: Option<usize>,
    attach: F,
    site: Site,
    after: Option<usize>,
) -> bool {
    if wanted {
        crate::hook::late::once(before, attach, site, after)
    } else {
        after == before
    }
}

impl Hooks {
    /// Nothing is detoured.
    pub fn new() -> (hooks: Hooks)
        ensures
            hooks == (Hooks {
                create_factory: None,
                create_factory1: None,
                create_factory2: None,
                create_swap_chain: None,
                for_hwnd: None,
                for_core: None,
                for_comp: None,
            }),
    {
        Hooks {
            create_factory: None,
            create_factory1: None,
            create_factory2: None,
            create_swap_chain: None,
            for_hwnd: None,
            for_core: None,
            for_comp: None,
        }
    }

    /// Detours the exports of the library, each where it has it.
    pub fn hook<F: Fn(Site) -> Option<usize>>(
        &mut self,
        has_create: bool,
        has_create1: bool,
        has_create2: bool,
        attach: &F,
    )
        requires
            has_create && old(self).create_factory is None ==> call_requires(
                *attach,
                (Site::CreateFactory,),
            ),
            has_create1 && old(self).create_factory1 is None ==> call_requires(
                *attach,
                (Site::CreateFactory1,),
            ),
            has_create2 && old(self).create_factory2 is None ==> call_requires(
                *attach,
                (Site::CreateFactory2,),
            ),
        ensures
            tried(
                has_create,
                old(self).create_factory,
                *attach,
                Site::CreateFactory,
                final(self).create_factory,
            ),
            tried(
                has_create1,
                old(self).create_factory1,
                *attach,
                Site::CreateFactory1,
                final(self).create_factory1,
            ),
            tried(
                has_create2,
                old(self).create_factory2,
                *attach,
                Site::CreateFactory2,
                final(self).create_factory2,
            ),
            *final(self) == (Hooks {
                create_factory: final(self).create_factory,
                create_factory1: final(self).create_factory1,
                create_factory2: final(self).create_factory2,
                ..*old(self)
            }),
    {
        if has_create {
            attach_once(&mut self.create_factory, attach, Site::CreateFactory);
        }
        if has_create1 {
            attach_once(&mut self.create_factory1, attach, Site::CreateFactory1);
        }
        if has_create2 {
            attach_once(&mut self.create_factory2, attach, Site::CreateFactory2);
        }
    }

    /// Detours the functions of a factory that create swap chains; `newer` tells
    /// whether it is one of the later factories.
    pub fn wrap_factory<F: Fn(Site) -> Option<usize>>(&mut self, newer: bool, attach: &F)
        requires
            old(self).create_swap_chain is None ==> call_requires(*attach, (Site::CreateSwapChain,)),
            newer && old(self).for_hwnd is None ==> call_requires(*attach, (Site::ForHwnd,)),
            newer && old(self).for_core is None ==> call_requires(*attach, (Site::ForCore,)),
            newer && old(self).for_comp is None ==> call_requires(*attach, (Site::ForComp,)),
        ensures
            tried(
                true,
                old(self).create_swap_chain,
                *attach,
                Site::CreateSwapChain,
                final(self).create_swap_chain,
            ),
            tried(newer, old(self).for_hwnd, *attach, Site::ForHwnd, final(self).for_hwnd),
            tried(newer, old(self).for_core, *attach, Site::ForCore, final(self).for_core),
            tried(newer, old(self).for_comp, *attach, Site::ForComp, final(self).for_comp),
            *final(self) == (Hooks {
                create_swap_chain: final(self).create_swap_chain,
                for_hwnd: final(self).for_hwnd,
                for_core: final(self).for_core,
                for_comp: final(self).for_comp,
                ..*old(self)
            }),
    {
        attach_once(&mut self.create_swap_chain, attach, Site::CreateSwapChain);
        if newer {
            attach_once(&mut self.for_hwnd, attach, Site::ForHwnd);
            attach_once(&mut self.for_core, attach, Site::ForCore);
            attach_once(&mut self.for_comp, attach, Site::ForComp);
        }
    }
}

/// Whether a created factory is detoured: the creation succeeded, and made one
/// where there was a place for it.
pub fn wraps_factory(hr: i32, out: Option<usize>) -> (wrap: bool)
    ensures
        wrap == crate::hook::dx::wraps(hr, out),
{
    match out {
        Some(raw) => hr >= 0 && raw != 0,
        None => false,
    }
}

/// Nothing is detoured at first. The library's exports are detoured each where
/// it has them, once, under their own places, and nothing else is.
pub proof fn law_exports_are_detoured_once<F: Fn(Site) -> Option<usize>>(
    fresh: Hooks,
    hooks: &mut Hooks,
    has_create: bool,
    has_create1: bool,
    has_create2: bool,
    attach: F,
)
    requires
        call_ensures(Hooks::new, (), fresh),
        call_ensures(
            Hooks::hook::<F>,
            (hooks, has_create, has_create1, has_create2, &attach),
            (),
        ),
    ensures
        fresh.create_factory is None && fresh.create_factory1 is None && fresh.create_factory2
            is None && fresh.create_swap_chain is None && fresh.for_hwnd is None && fresh.for_core
            is None && fresh.for_comp is None,
        old(hooks).create_factory is Some || !has_create ==> final(hooks).create_factory == old(hooks).create_factory,
        old(hooks).create_factory is None && has_create ==> call_ensures(
            attach,
            (Site::CreateFactory,),
            final(hooks).create_factory,
        ),
        old(hooks).create_factory1 is Some || !has_create1 ==> final(hooks).create_factory1 == old(hooks).create_factory1,
        old(hooks).create_factory1 is None && has_create1 ==> call_ensures(
            attach,
            (Site::CreateFactory1,),
            final(hooks).create_factory1,
        ),
        old(hooks).create_factory2 is Some || !has_create2 ==> final(hooks).create_factory2 == old(hooks).create_factory2,
        old(hooks).create_factory2 is None && has_create2 ==> call_ensures(
            attach,
            (Site::CreateFactory2,),
            final(hooks).create_factory2,
        ),
        final(hooks).create_swap_chain == old(hooks).create_swap_chain && final(hooks).for_hwnd
            == old(hooks).for_hwnd && final(hooks).for_core == old(hooks).for_core && final(hooks).for_comp == old(hooks).for_comp,
{
}

/// A factory's functions that create swap chains are detoured once, each under
/// its own place; those of the later factories only of one of them.
pub proof fn law_factory_is_detoured_once<F: Fn(Site) -> Option<usize>>(
    hooks: &mut Hooks,
    newer: bool,
    attach: F,
)
    requires
        call_ensures(Hooks::wrap_factory::<F>, (hooks, newer, &attach), ()),
    ensures
        old(hooks).create_swap_chain is Some ==> final(hooks).create_swap_chain == old(hooks).create_swap_chain,
        old(hooks).create_swap_chain is None ==> call_ensures(
            attach,
            (Site::CreateSwapChain,),
            final(hooks).create_swap_chain,
        ),
        old(hooks).for_hwnd is Some || !newer ==> final(hooks).for_hwnd == old(hooks).for_hwnd,
        old(hooks).for_hwnd is None && newer ==> call_ensures(
            attach,
            (Site::ForHwnd,),
            final(hooks).for_hwnd,
        ),
        old(hooks).for_core is Some || !newer ==> final(hooks).for_core == old(hooks).for_core,
        old(hooks).for_core is None && newer ==> call_ensures(
            attach,
            (Site::ForCore,),
            final(hooks).for_core,
        ),
        old(hooks).for_comp is Some || !newer ==> final(hooks).for_comp == old(hooks).for_comp,
        old(hooks).for_comp is None && newer ==> call_ensures(
            attach,
            (Site::ForComp,),
            final(hooks).for_comp,
        ),
        final(hooks).create_factory == old(hooks).create_factory && final(hooks).create_factory1
            == old(hooks).create_factory1 && final(hooks).create_factory2 == old(hooks).create_factory2,
{
}

/// A factory is detoured exactly if its creation succeeded and made one.
pub proof fn law_created_factory_is_detoured(hr: i32, out: Option<usize>, wrap: bool)
    requires
        call_ensures(wraps_factory, (hr, out), wrap),
    ensures
        wrap <==> (hr >= 0 && out is Some && out->0 != 0),
{
}

} // verus!
