//! Libraries that generate frames.
//!
//! They are detoured when they are there, and the detours only call the real
//! functions: nothing is drawn and nothing more is presented.

use vstd::prelude::*;

verus! {

/// What a detour does.
#[derive(Debug, Clone, Copy, PartialEq, Eq, Structural)]
pub enum FgPlan {
    OriginalOnly,
}

/// Every detour calls the real function and nothing else.
pub fn fg_plan() -> (plan: FgPlan)
    ensures
        plan == FgPlan::OriginalOnly,
{
    FgPlan::OriginalOnly
}

/// The function that a library tells for its options; none without a library,
/// or where it tells none.
pub fn resolve_sldlssg(module: usize, plugin: impl FnOnce() -> Option<usize>) -> (address: Option<
    usize,
>)
    requires
        module != 0 ==> call_requires(plugin, ()),
    ensures
        module == 0 ==> address is None,
        module != 0 ==> exists|told: Option<usize>| #[trigger]
            call_ensures(plugin, (), told) && address == if told == Some(0usize) {
                None
            } else {
                told
            },
{
    if module == 0 {
        return None;
    }
    let told = plugin();
    assert(call_ensures(plugin, (), told));
    match told {
        Some(address) => {
            if address == 0 {
                None
            } else {
                Some(address)
            }
        },
        None => None,
    }
}

/// The functions that are detoured.
#[derive(Debug, Clone, Copy, PartialEq, Eq, Structural)]
pub enum Site {
    FrameToken,
    Dlssg,
    DlssgProgramData,
    FfxVk,
    FfxDx12,
}

/// The libraries, each where it is loaded.
#[derive(Debug, Clone, Copy, PartialEq, Eq, Structural)]
pub struct Modules {
    pub sl: Option<usize>,
    pub sl_pd: Option<usize>,
    pub dlss: Option<usize>,
    pub dlss_pd: Option<usize>,
    pub ffx_vk: Option<usize>,
    pub ffx_dx12: Option<usize>,
}

/// The real functions behind the detours, each where it could be detoured.
#[derive(Debug, Clone, Copy, PartialEq, Eq, Structural)]
pub struct Hooks {
    pub sl_frame_token: Option<usize>,
    pub sldlssg: Option<usize>,
    pub sldlssg_pd: Option<usize>,
    pub ffx_vk: Option<usize>,
    pub ffx_dx12: Option<usize>,
}

impl Hooks {
    /// Whether anything is detoured.
    pub open spec fn any(self) -> bool {
        self.sl_frame_token is Some || self.sldlssg is Some || self.sldlssg_pd is Some
            || self.ffx_vk is Some || self.ffx_dx12 is Some
    }

    /// Whether anything is detoured.
    pub fn any_attached(&self) -> (attached: bool)
        ensures
            attached == self.any(),
    {
        self.sl_frame_token.is_some() || self.sldlssg.is_some() || self.sldlssg_pd.is_some()
            || self.ffx_vk.is_some() || self.ffx_dx12.is_some()
    }
}

impl Modules {
    /// The library of a function. The copy that other programs share is preferred
    /// for the frame token; for the options it counts only where it is another
    /// library.
    pub open spec fn of(self, site: Site) -> Option<usize> {
        match site {
            Site::FrameToken => if self.sl_pd is Some {
                self.sl_pd
            } else {
                self.sl
            },
            Site::Dlssg => self.dlss,
            Site::DlssgProgramData => if self.dlss_pd == self.dlss {
                None
            } else {
                self.dlss_pd
            },
            Site::FfxVk => self.ffx_vk,
            Site::FfxDx12 => self.ffx_dx12,
        }
    }

    /// The library of a function.
    pub fn module_of(&self, site: Site) -> (module: Option<usize>)
        ensures
            module == self.of(site),
    {
        match site {
            Site::FrameToken => if self.sl_pd.is_some() {
                self.sl_pd
            } else {
                self.sl
            },
            Site::Dlssg => self.dlss,
            Site::DlssgProgramData => match self.dlss_pd {
                None => None,
                Some(copy) => match self.dlss {
                    Some(own) => if copy == own {
                        None
                    } else {
                        Some(copy)
                    },
                    None => Some(copy),
                },
            },
            Site::FfxVk => self.ffx_vk,
            Site::FfxDx12 => self.ffx_dx12,
        }
    }
}

/// Whether `original` is what detouring a function in a library came to.
pub open spec fn tried<F: Fn(Site, usize) -> Option<usize>>(
    attach: F,
    modules: Modules,
    site: Site,
    original: Option<usize>,
) -> bool {
    match modules.of(site) {
        None => original is None,
        Some(module) => call_ensures(attach, (site, module), original),
    }
}

/// Whether `hooks` is what detouring all functions came to.
pub open spec fn all_tried<F: Fn(Site, usize) -> Option<usize>>(
    attach: F,
    modules: Modules,
    hooks: Hooks,
) -> bool {
    &&& tried(attach, modules, Site::FrameToken, hooks.sl_frame_token)
    &&& tried(attach, modules, Site::Dlssg, hooks.sldlssg)
    &&& tried(attach, modules, Site::DlssgProgramData, hooks.sldlssg_pd)
    &&& tried(attach, modules, Site::FfxVk, hooks.ffx_vk)
    &&& tried(attach, modules, Site::FfxDx12, hooks.ffx_dx12)
}

/// Detours a function where its library is loaded.
fn try_attach<F: Fn(Site, usize) -> Option<usize>>(attach: &F, modules: &Modules, site: Site) -> (
original: Option<usize>)
    requires
        modules.of(site) matches Some(module) ==> call_requires(*attach, (site, module)),
    ensures
        tried(*attach, *modules, site, original),
{
    match modules.module_of(site) {
        None => None,
        Some(module) => attach(site, module),
    }
}

/// Detours the functions of the libraries that are loaded. What is detoured
/// stays so; where nothing could be, nothing is remembered, so that a later
/// call tries again.
pub fn hook<F: Fn(Site, usize) -> Option<usize>>(
    hooks: &mut Option<Hooks>,
    modules: &Modules,
    attach: F,
)
    requires
        *old(hooks) is None ==> forall|site: Site|
            (#[trigger] modules.of(site)) matches Some(module) ==> call_requires(
                attach,
                (site, module),
            ),
    ensures
        *old(hooks) is Some ==> *final(hooks) == *old(hooks),
        *old(hooks) is None ==> exists|made: Hooks| #[trigger]
            all_tried(attach, *modules, made) && *final(hooks) == if made.any() {
                Some(made)
            } else {
                None
            },
{
    if hooks.is_some() {
        return ;
    }
    let made = Hooks {
        sl_frame_token: try_attach(&attach, modules, Site::FrameToken),
        ffx_vk: try_attach(&attach, modules, Site::FfxVk),
        ffx_dx12: try_attach(&attach, modules, Site::FfxDx12),
        sldlssg: try_attach(&attach, modules, Site::Dlssg),
        sldlssg_pd: try_attach(&attach, modules, Site::DlssgProgramData),
    };
    assert(all_tried(attach, *modules, made));
    if made.any_attached() {
        *hooks = Some(made);
    }
}

/// Without any of the libraries nothing is detoured, and nothing remembered.
pub proof fn law_missing_libraries_are_no_failure<F: Fn(Site, usize) -> Option<usize>>(
    attach: F,
    modules: Modules,
    made: Hooks,
)
    requires
        all_tried(attach, modules, made),
        modules.sl is None,
        modules.sl_pd is None,
        modules.dlss is None,
        modules.dlss_pd is None,
        modules.ffx_vk is None,
        modules.ffx_dx12 is None,
    ensures
        !made.any(),
{
}

/// A detour only calls the real function.
pub proof fn law_detours_only_pass_on(plan: FgPlan)
    requires
        call_ensures(fg_plan, (), plan),
    ensures
        plan is OriginalOnly,
{
}

/// The function for the options is the one that a loaded library tells, unless
/// it tells none.
pub proof fn law_options_are_told_by_the_library<F: FnOnce() -> Option<usize>>(
    module: usize,
    plugin: F,
    address: Option<usize>,
)
    requires
        call_ensures(resolve_sldlssg, (module, plugin), address),
    ensures
        module == 0 ==> address is None,
        address != Some(0usize),
        module != 0 ==> exists|told: Option<usize>| #[trigger]
            call_ensures(plugin, (), told) && (told is Some && told->0 != 0 ==> address == told)
                && (told is None ==> address is None),
{
    if module != 0 {
        let told = choose|told: Option<usize>| #[trigger]
            call_ensures(plugin, (), told) && address == if told == Some(0usize) {
                None
            } else {
                told
            };
        assert(call_ensures(plugin, (), told));
    }
}

/// Something is detoured exactly if one of the five functions is.
pub proof fn law_any_detour_counts(hooks: Hooks, attached: bool)
    requires
        call_ensures(Hooks::any_attached, (&hooks,), attached),
    ensures
        !attached <==> (hooks.sl_frame_token is None && hooks.sldlssg is None && hooks.sldlssg_pd
            is None && hooks.ffx_vk is None && hooks.ffx_dx12 is None),
{
}

/// Each function is looked for in its own library: the frame token in the
/// shared copy where there is one, and the shared options only where their
/// library is another than the game's own.
pub proof fn law_functions_have_their_libraries(modules: Modules, site: Site, module: Option<usize>)
    requires
        call_ensures(Modules::module_of, (&modules, site), module),
    ensures
        site is FrameToken && modules.sl_pd is Some ==> module == modules.sl_pd,
        site is FrameToken && modules.sl_pd is None ==> module == modules.sl,
        site is Dlssg ==> module == modules.dlss,
        site is DlssgProgramData && modules.dlss_pd != modules.dlss ==> module == modules.dlss_pd,
        site is DlssgProgramData && modules.dlss_pd == modules.dlss ==> module is None,
        site is FfxVk ==> module == modules.ffx_vk,
        site is FfxDx12 ==> module == modules.ffx_dx12,
{
}

/// What is detoured stays so. Else every function whose library is loaded is
/// tried in it, each under its own place, and what came of it is remembered if
/// any could be detoured.
pub proof fn law_loaded_libraries_are_detoured<F: Fn(Site, usize) -> Option<usize>>(
    hooks: &mut Option<Hooks>,
    modules: Modules,
    attach: F,
)
    requires
        call_ensures(hook::<F>, (hooks, &modules, attach), ()),
    ensures
        *old(hooks) is Some ==> *final(hooks) == *old(hooks),
        *old(hooks) is None && *final(hooks) is Some ==> ({
            let made = (*final(hooks))->0;
            &&& made.sl_frame_token is Some || made.sldlssg is Some || made.sldlssg_pd is Some
                || made.ffx_vk is Some || made.ffx_dx12 is Some
            &&& modules.sl_pd is Some ==> call_ensures(
                attach,
                (Site::FrameToken, modules.sl_pd->0),
                made.sl_frame_token,
            )
            &&& modules.dlss is Some ==> call_ensures(
                attach,
                (Site::Dlssg, modules.dlss->0),
                made.sldlssg,
            )
            &&& modules.dlss is None ==> made.sldlssg is None
            &&& modules.ffx_vk is Some ==> call_ensures(
                attach,
                (Site::FfxVk, modules.ffx_vk->0),
                made.ffx_vk,
            )
            &&& modules.ffx_vk is None ==> made.ffx_vk is None
            &&& modules.ffx_dx12 is Some ==> call_ensures(
                attach,
                (Site::FfxDx12, modules.ffx_dx12->0),
                made.ffx_dx12,
            )
            &&& modules.ffx_dx12 is None ==> made.ffx_dx12 is None
            &&& modules.dlss_pd is Some && modules.dlss_pd != modules.dlss ==> call_ensures(
                attach,
                (Site::DlssgProgramData, modules.dlss_pd->0),
                made.sldlssg_pd,
            )
        }),
        *old(hooks) is None && *final(hooks) is None && modules.ffx_vk is Some ==> call_ensures(
            attach,
            (Site::FfxVk, modules.ffx_vk->0),
            None::<usize>,
        ),
{
    if *old(hooks) is None {
        let made = choose|made: Hooks| #[trigger]
            all_tried(attach, modules, made) && *final(hooks) == if made.any() {
                Some(made)
            } else {
                None
            };
        assert(all_tried(attach, modules, made));
    }
}

} // verus!
