//! Direct3D 9.

use crate::backend::render::{OverlaySurface, RenderData, RenderState, Renderer};
use crate::hook::late::attach_once;
use crate::int_map::WordTable;
use vstd::prelude::*;

verus! {

/// The window of a present: the one that it names, else the one that the swap
/// chain tells.
pub fn present_window(named: usize, told: impl FnOnce() -> Option<usize>) -> (hwnd: usize)
    requires
        named == 0 ==> call_requires(told, ()),
    ensures
        named != 0 ==> hwnd == named,
        named == 0 ==> exists|window: Option<usize>| #[trigger]
            call_ensures(told, (), window) && hwnd == match window {
                Some(window) => window,
                None => 0,
            },
{
    if named != 0 {
        return named;
    }
    let window = told();
    assert(call_ensures(told, (), window));
    match window {
        Some(window) => window,
        None => 0,
    }
}

/// Whether the overlay is drawn before a present of a device: there are clients
/// and a window. A present of a swap chain asks for no clients.
pub fn draws_in(connected: bool, of_swapchain: bool, hwnd: usize) -> (draw: bool)
    ensures
        draw == ((connected || of_swapchain) && hwnd != 0),
{
    (connected || of_swapchain) && hwnd != 0
}

/// What is drawn in a window: the surface of its lowest layer, if this version
/// draws in it. The first time only the version is noted, since another one may
/// turn out to draw.
pub fn draw_overlay(render: &mut RenderData) -> (surface: Option<OverlaySurface>)
    ensures
        final(render)@ == match old(render)@.renderer {
            None => RenderState { renderer: Some(Renderer::Dx9), ..old(render)@ },
            Some(_) => old(render)@,
        },
        surface == if old(render)@.renderer == Some(Renderer::Dx9) {
            old(render)@.surface.inner
        } else {
            None
        },
{
    match render.renderer {
        Some(renderer) => {
            if renderer == Renderer::Dx9 {
                render.surface.get()
            } else {
                None
            }
        },
        None => {
            render.renderer = Some(Renderer::Dx9);
            None
        },
    }
}

/// Whether a release leaves only the references that the overlay's renderer
/// holds itself: two, and a third with a texture.
pub open spec fn last_release(count: u32) -> bool {
    count == 2 || count == 3
}

/// Forgets the renderer of a device; the renderer is returned, to be dropped.
pub fn cleanup_renderer(renderers: &mut WordTable, device: usize) -> (gone: Option<usize>)
    ensures
        final(renderers)@ == old(renderers)@.remove(device),
        gone == old(renderers)@.get(device),
{
    renderers.remove(device)
}

/// What is done about a device that was released: its renderer is forgotten once
/// nobody else holds the device.
pub fn after_release(renderers: &mut WordTable, device: usize, count: u32) -> (gone: Option<usize>)
    ensures
        final(renderers)@ == if last_release(count) {
            old(renderers)@.remove(device)
        } else {
            old(renderers)@
        },
        gone == if last_release(count) {
            old(renderers)@.get(device)
        } else {
            None
        },
{
    if count == 2 || count == 3 {
        cleanup_renderer(renderers, device)
    } else {
        None
    }
}

/// The functions that are detoured.
#[derive(Debug, Clone, Copy, PartialEq, Eq, Structural)]
pub enum Site {
    Create9,
    Create9Ex,
    CreateDevice,
    CreateDeviceEx,
    Present,
    Release,
    PresentEx,
    SwapchainPresent,
    Reset,
    ResetEx,
}

/// The real functions behind the detours, each where it could be detoured.
#[derive(Debug, Clone, Copy, PartialEq, Eq, Structural)]
pub struct Hook {
    pub create9: Option<usize>,
    pub create9ex: Option<usize>,
    pub create_device: Option<usize>,
    pub create_device_ex: Option<usize>,
    pub present: Option<usize>,
    pub release: Option<usize>,
    pub present_ex: Option<usize>,
    pub swapchain_present: Option<usize>,
    pub reset: Option<usize>,
    pub reset_ex: Option<usize>,
}

/// Whether a function is detoured, where `wanted`, and else left alone.
pub open spec fn tried<F: Fn(Site) -> Option<usize>>(
    wanted: bool,
    before: Option<usize>,
    attach: F,
    site: Site,
    after: Option<usize>,
) -> bool {
    if wanted {
        crate::hook::late::once(before, attach, site, after)
    } else {
        after == before
    }
}

impl Hook {
    /// Nothing is detoured.
    pub fn new() -> (hook: Hook)
        ensures
            hook == (Hook {
                create9: None,
                create9ex: None,
                create_device: None,
                create_device_ex: None,
                present: None,
                release: None,
                present_ex: None,
                swapchain_present: None,
                reset: None,
                reset_ex: None,
            }),
    {
        Hook {
            create9: None,
            create9ex: None,
            create_device: None,
            create_device_ex: None,
            present: None,
            release: None,
            present_ex: None,
            swapchain_present: None,
            reset: None,
            reset_ex: None,
        }
    }

    /// Detours the exports of the library, each where it has it.
    pub fn hook<F: Fn(Site) -> Option<usize>>(
        &mut self,
        has_create9: bool,
        has_create9ex: bool,
        attach: &F,
    )
        requires
            has_create9 && old(self).create9 is None ==> call_requires(*attach, (Site::Create9,)),
            has_create9ex && old(self).create9ex is None ==> call_requires(
                *attach,
                (Site::Create9Ex,),
            ),
        ensures
            tried(has_create9, old(self).create9, *attach, Site::Create9, final(self).create9),
            tried(
                has_create9ex,
                old(self).create9ex,
                *attach,
                Site::Create9Ex,
                final(self).create9ex,
            ),
            *final(self) == (Hook {
                create9: final(self).create9,
                create9ex: final(self).create9ex,
                ..*old(self)
            }),
    {
        if has_create9 {
            attach_once(&mut self.create9, attach, Site::Create9);
        }
        if has_create9ex {
            attach_once(&mut self.create9ex, attach, Site::Create9Ex);
        }
    }

    /// Detours the creation of devices of an interface; `extended` tells whether
    /// it is one of the later ones.
    pub fn wrap_d3d9<F: Fn(Site) -> Option<usize>>(&mut self, extended: bool, attach: &F)
        requires
            old(self).create_device is None ==> call_requires(*attach, (Site::CreateDevice,)),
            extended && old(self).create_device_ex is None ==> call_requires(
                *attach,
                (Site::CreateDeviceEx,),
            ),
        ensures
            tried(
                true,
                old(self).create_device,
                *attach,
                Site::CreateDevice,
                final(self).create_device,
            ),
            tried(
                extended,
                old(self).create_device_ex,
                *attach,
                Site::CreateDeviceEx,
                final(self).create_device_ex,
            ),
            *final(self) == (Hook {
                create_device: final(self).create_device,
                create_device_ex: final(self).create_device_ex,
                ..*old(self)
            }),
    {
        attach_once(&mut self.create_device, attach, Site::CreateDevice);
        if extended {
            attach_once(&mut self.create_device_ex, attach, Site::CreateDeviceEx);
        }
    }

    /// Detours the functions of a device, and of its swap chain if it tells one;
    /// `extended` tells whether it is one of the later devices.
    pub fn wrap_device<F: Fn(Site) -> Option<usize>>(
        &mut self,
        has_swapchain: bool,
        extended: bool,
        attach: &F,
    )
        requires
            old(self).present is None ==> call_requires(*attach, (Site::Present,)),
            old(self).release is None ==> call_requires(*attach, (Site::Release,)),
            old(self).reset is None ==> call_requires(*attach, (Site::Reset,)),
            has_swapchain && old(self).swapchain_present is None ==> call_requires(
                *attach,
                (Site::SwapchainPresent,),
            ),
            extended && old(self).present_ex is None ==> call_requires(*attach, (Site::PresentEx,)),
            extended && old(self).reset_ex is None ==> call_requires(*attach, (Site::ResetEx,)),
        ensures
            tried(true, old(self).present, *attach, Site::Present, final(self).present),
            tried(true, old(self).release, *attach, Site::Release, final(self).release),
            tried(true, old(self).reset, *attach, Site::Reset, final(self).reset),
            tried(
                has_swapchain,
                old(self).swapchain_present,
                *attach,
                Site::SwapchainPresent,
                final(self).swapchain_present,
            ),
            tried(extended, old(self).present_ex, *attach, Site::PresentEx, final(self).present_ex),
            tried(extended, old(self).reset_ex, *attach, Site::ResetEx, final(self).reset_ex),
            *final(self) == (Hook {
                create9: old(self).create9,
                create9ex: old(self).create9ex,
                create_device: old(self).create_device,
                create_device_ex: old(self).create_device_ex,
                ..*final(self)
            }),
    {
        attach_once(&mut self.present, attach, Site::Present);
        attach_once(&mut self.release, attach, Site::Release);
        attach_once(&mut self.reset, attach, Site::Reset);
        if has_swapchain {
            attach_once(&mut self.swapchain_present, attach, Site::SwapchainPresent);
        }
        if extended {
            attach_once(&mut self.present_ex, attach, Site::PresentEx);
            attach_once(&mut self.reset_ex, attach, Site::ResetEx);
        }
    }
}

/// A present that names a window is of that window; another is of the one that
/// the swap chain tells, or of none.
pub proof fn law_named_window_counts_first<F: FnOnce() -> Option<usize>>(
    named: usize,
    told: F,
    hwnd: usize,
)
    requires
        call_ensures(present_window, (named, told), hwnd),
    ensures
        named != 0 ==> hwnd == named,
        named == 0 ==> exists|window: Option<usize>| #[trigger]
            call_ensures(told, (), window) && (window is Some ==> hwnd == window->0) && (
            window is None ==> hwnd == 0),
{
    if named == 0 {
        let window = choose|window: Option<usize>| #[trigger]
            call_ensures(told, (), window) && hwnd == match window {
                Some(window) => window,
                None => 0,
            };
        assert(call_ensures(told, (), window));
    }
}

/// Without a window nothing is drawn; with one a swap chain's present is drawn
/// in any case, and a device's only for clients.
pub proof fn law_drawing_needs_a_window(
    connected: bool,
    of_swapchain: bool,
    hwnd: usize,
    draw: bool,
)
    requires
        call_ensures(draws_in, (connected, of_swapchain, hwnd), draw),
    ensures
        hwnd == 0 ==> !draw,
        hwnd != 0 && of_swapchain ==> draw,
        hwnd != 0 && !of_swapchain ==> draw == connected,
{
}

/// A window that nobody draws in becomes this version's without being drawn in;
/// one of this version shows the surface of its lowest layer; one of another is
/// left alone.
pub proof fn law_first_frame_only_notes_the_version(
    render: &mut RenderData,
    surface: Option<OverlaySurface>,
)
    requires
        call_ensures(draw_overlay, (render,), surface),
    ensures
        old(render)@.renderer is None ==> surface is None && final(render)@.renderer == Some(
            Renderer::Dx9,
        ),
        old(render)@.renderer is Some ==> final(render)@ == old(render)@,
        old(render)@.renderer == Some(Renderer::Dx9) ==> surface == old(render)@.surface.inner,
        old(render)@.renderer != Some(Renderer::Dx9) ==> surface is None,
        final(render)@.layers == old(render)@.layers && final(render)@.surface == old(render)@.surface && final(render)@.window_size == old(render)@.window_size,
{
}

/// A release that leaves two or three references forgets the device's renderer
/// and hands it back; any other changes nothing. Other devices keep theirs.
pub proof fn law_renderer_goes_with_its_device(
    renderers: &mut WordTable,
    device: usize,
    count: u32,
    gone: Option<usize>,
    other: usize,
)
    requires
        call_ensures(after_release, (renderers, device, count), gone),
        other != device,
    ensures
        count == 2 || count == 3 ==> !final(renderers)@.contains_key(device) && (gone is Some
            <==> old(renderers)@.contains_key(device)) && (gone is Some ==> gone->0 == old(renderers)@[device]),
        count != 2 && count != 3 ==> gone is None && final(renderers)@ == old(renderers)@,
        final(renderers)@.contains_key(other) <==> old(renderers)@.contains_key(other),
        old(renderers)@.contains_key(other) ==> final(renderers)@[other] == old(renderers)@[other],
{
}

/// A renderer that is cleaned up is handed back once.
pub proof fn law_cleaned_up_renderer_is_gone(
    renderers: &mut WordTable,
    device: usize,
    gone: Option<usize>,
    next: &mut WordTable,
    again: Option<usize>,
    other: usize,
)
    requires
        call_ensures(cleanup_renderer, (renderers, device), gone),
        *next == *final(renderers),
        call_ensures(cleanup_renderer, (next, device), again),
        other != device,
    ensures
        gone is Some <==> old(renderers)@.contains_key(device),
        gone is Some ==> gone->0 == old(renderers)@[device],
        again is None,
        final(renderers)@.get(other) == old(renderers)@.get(other),
{
}

/// Nothing is detoured at first. The library's exports are detoured each where
/// it has them, once, under their own places, and nothing else is.
pub proof fn law_exports_are_detoured_once<F: Fn(Site) -> Option<usize>>(
    fresh: Hook,
    hook: &mut Hook,
    has_create9: bool,
    has_create9ex: bool,
    attach: F,
)
    requires
        call_ensures(Hook::new, (), fresh),
        call_ensures(Hook::hook::<F>, (hook, has_create9, has_create9ex, &attach), ()),
    ensures
        fresh.create9 is None && fresh.create9ex is None && fresh.create_device is None
            && fresh.create_device_ex is None && fresh.present is None && fresh.release is None,
        fresh.present_ex is None && fresh.swapchain_present is None && fresh.reset is None
            && fresh.reset_ex is None,
        old(hook).create9 is Some || !has_create9 ==> final(hook).create9 == old(hook).create9,
        old(hook).create9 is None && has_create9 ==> call_ensures(
            attach,
            (Site::Create9,),
            final(hook).create9,
        ),
        old(hook).create9ex is Some || !has_create9ex ==> final(hook).create9ex == old(hook).create9ex,
        old(hook).create9ex is None && has_create9ex ==> call_ensures(
            attach,
            (Site::Create9Ex,),
            final(hook).create9ex,
        ),
        final(hook).create_device == old(hook).create_device && final(hook).present == old(hook).present && final(hook).reset == old(hook).reset,
{
}

/// The creation of devices is detoured once, and the extended one only of an
/// extended interface.
pub proof fn law_device_creation_is_detoured_once<F: Fn(Site) -> Option<usize>>(
    hook: &mut Hook,
    extended: bool,
    attach: F,
)
    requires
        call_ensures(Hook::wrap_d3d9::<F>, (hook, extended, &attach), ()),
    ensures
        old(hook).create_device is Some ==> final(hook).create_device == old(hook).create_device,
        old(hook).create_device is None ==> call_ensures(
            attach,
            (Site::CreateDevice,),
            final(hook).create_device,
        ),
        old(hook).create_device_ex is Some || !extended ==> final(hook).create_device_ex == old(hook).create_device_ex,
        old(hook).create_device_ex is None && extended ==> call_ensures(
            attach,
            (Site::CreateDeviceEx,),
            final(hook).create_device_ex,
        ),
        final(hook).create9 == old(hook).create9 && final(hook).present == old(hook).present
            && final(hook).release == old(hook).release && final(hook).reset == old(hook).reset,
{
}

/// The functions of a device are detoured once, each under its own place: those
/// of an extended device only of one, and that of a swap chain only where the
/// device tells one.
pub proof fn law_device_is_detoured_once<F: Fn(Site) -> Option<usize>>(
    hook: &mut Hook,
    has_swapchain: bool,
    extended: bool,
    attach: F,
)
    requires
        call_ensures(Hook::wrap_device::<F>, (hook, has_swapchain, extended, &attach), ()),
    ensures
        old(hook).present is Some ==> final(hook).present == old(hook).present,
        old(hook).present is None ==> call_ensures(attach, (Site::Present,), final(hook).present),
        old(hook).release is Some ==> final(hook).release == old(hook).release,
        old(hook).release is None ==> call_ensures(attach, (Site::Release,), final(hook).release),
        old(hook).reset is Some ==> final(hook).reset == old(hook).reset,
        old(hook).reset is None ==> call_ensures(attach, (Site::Reset,), final(hook).reset),
        old(hook).swapchain_present is Some || !has_swapchain ==> final(hook).swapchain_present
            == old(hook).swapchain_present,
        old(hook).swapchain_present is None && has_swapchain ==> call_ensures(
            attach,
            (Site::SwapchainPresent,),
            final(hook).swapchain_present,
        ),
        old(hook).present_ex is Some || !extended ==> final(hook).present_ex == old(hook).present_ex,
        old(hook).present_ex is None && extended ==> call_ensures(
            attach,
            (Site::PresentEx,),
            final(hook).present_ex,
        ),
        old(hook).reset_ex is Some || !extended ==> final(hook).reset_ex == old(hook).reset_ex,
        old(hook).reset_ex is None && extended ==> call_ensures(
            attach,
            (Site::ResetEx,),
            final(hook).reset_ex,
        ),
        final(hook).create9 == old(hook).create9 && final(hook).create_device == old(hook).create_device,
{
}

} // verus!
