//! Drawing from presents that have no compositor of their own.
//!
//! Where the window has a swap chain that is known otherwise, the overlay is
//! drawn through it; else the window is only taken in. The game's own present
//! always follows.

use crate::backend::{Backends, WindowBackend};
use crate::event::{GpuLuid, OverlayEvent, WindowEvent};
use crate::event_sink::{Delivery, OverlayEventSink};
use vstd::prelude::*;

verus! {

/// What is done before a present.
#[derive(Debug, Clone, Copy, PartialEq, Eq, Structural)]
pub enum BlitPlan {
    /// There is no window or no client: nothing is waited for.
    SkipNoWait,
    /// The overlay is drawn through the known swap chain.
    DrawKnownSwapchain,
    /// The window is taken in, and nothing is drawn.
    InitNoGpu,
}

/// What is done before a present.
pub open spec fn planned(hwnd_null: bool, connected: bool, swapchain_known: bool) -> BlitPlan {
    if hwnd_null || !connected {
        BlitPlan::SkipNoWait
    } else if swapchain_known {
        BlitPlan::DrawKnownSwapchain
    } else {
        BlitPlan::InitNoGpu
    }
}

/// Decides what is done before a present.
pub fn blit_plan(hwnd_null: bool, connected: bool, swapchain_known: bool) -> (plan: BlitPlan)
    ensures
        plan == planned(hwnd_null, connected, swapchain_known),
{
    if hwnd_null || !connected {
        return BlitPlan::SkipNoWait;
    }
    if swapchain_known {
        BlitPlan::DrawKnownSwapchain
    } else {
        BlitPlan::InitNoGpu
    }
}

/// A window with the size that was just read, where it could be.
pub open spec fn resized(backend: WindowBackend, size: Option<(u32, u32)>) -> WindowBackend {
    match size {
        Some(window_size) => WindowBackend {
            render: crate::backend::render::RenderData { window_size, ..backend.render },
            ..backend
        },
        None => backend,
    }
}

/// The id of a window.
pub open spec fn window_id(hwnd: usize) -> u32 {
    hwnd as u32
}

/// Sets the size of a window.
fn with_size(backend: WindowBackend, size: Option<(u32, u32)>) -> (sized: WindowBackend)
    ensures
        sized == resized(backend, size),
{
    let mut sized = backend;
    if let Some(size) = size {
        sized.render.window_size = size;
    }
    sized
}

/// Notes the size of a window, if it is known.
fn note_size(backends: &mut Backends, id: u32, size: Option<(u32, u32)>)
    ensures
        final(backends)@ == if old(backends)@.contains_key(id) {
            old(backends)@.insert(id, resized(old(backends)@[id], size))
        } else {
            old(backends)@
        },
{
    if let Some(backend) = backends.take(id) {
        backends.put(id, with_size(backend, size));
        assert(backends@ =~= old(backends)@.insert(id, resized(old(backends)@[id], size)));
    } else {
        assert(backends@ =~= old(backends)@);
    }
}

/// Leaves a window as it is.
fn kept(backend: WindowBackend) -> (made: (WindowBackend, ()))
    ensures
        made.0 == backend,
{
    (backend, ())
}

/// The first step before a present: the size of a known window is noted. Tells
/// whether the overlay is to be drawn.
pub fn begin_blit(hwnd: usize, connected: bool, size: Option<(u32, u32)>, backends: &mut Backends)
    -> (draw: bool)
    ensures
        draw == (planned(hwnd == 0, connected, false) != BlitPlan::SkipNoWait),
        final(backends)@ == if draw && size is Some && old(backends)@.contains_key(
            window_id(hwnd),
        ) {
            old(backends)@.insert(
                window_id(hwnd),
                resized(old(backends)@[window_id(hwnd)], size),
            )
        } else {
            old(backends)@
        },
{
    if blit_plan(hwnd == 0, connected, false) == BlitPlan::SkipNoWait {
        return false;
    }
    if size.is_some() {
        note_size(backends, hwnd as u32, size);
    }
    true
}

/// What clients are told of a window that is taken in.
pub open spec fn added(id: u32, size: (u32, u32), gpu_id: GpuLuid) -> OverlayEvent {
    OverlayEvent::Window {
        id,
        event: WindowEvent::Added { width: size.0, height: size.1, gpu_id },
    }
}

/// The second step before a present: a window that the overlay could not be
/// drawn in is taken in, and its size noted. What clients are told is returned.
pub fn finish_blit<E>(
    hwnd: usize,
    drawn: bool,
    size: Option<(u32, u32)>,
    init: impl FnOnce() -> Result<(GpuLuid, (u32, u32)), E>,
    backends: &mut Backends,
    sink: &mut OverlayEventSink,
) -> (told: Vec<Delivery>)
    requires
        !drawn && !old(backends)@.contains_key(window_id(hwnd)) ==> call_requires(init, ()),
    ensures
        final(sink)@ == old(sink)@,
        drawn ==> final(backends)@ == old(backends)@ && told@.len() == 0,
        !drawn && old(backends)@.contains_key(window_id(hwnd)) ==> final(backends)@ == old(
            backends,
        )@.insert(window_id(hwnd), resized(old(backends)@[window_id(hwnd)], size)) && told@.len()
            == 0,
        !drawn && !old(backends)@.contains_key(window_id(hwnd)) ==> exists|
            found: Result<(GpuLuid, (u32, u32)), E>,
        | #[trigger]
            call_ensures(init, (), found) && match found {
                Err(_) => final(backends)@ == old(backends)@ && told@.len() == 0,
                Ok((gpu_id, known)) => {
                    &&& told@ == old(sink)@.broadcast(added(window_id(hwnd), known, gpu_id))
                    &&& exists|fresh: WindowBackend|
                        {
                            &&& #[trigger] fresh.fresh(window_id(hwnd), gpu_id, known)
                            &&& final(backends)@ == old(backends)@.insert(
                                window_id(hwnd),
                                resized(fresh, size),
                            )
                        }
                },
            },
{
    if drawn {
        return Vec::new();
    }
    let id: u32 = hwnd as u32;
    let done = backends.with_or_init_backend(sink, id, init, kept);
    match done {
        Ok((_, told)) => {
            let ghost taken_in = backends@;
            note_size(backends, id, size);
            assert(backends@ =~= old(backends)@.insert(id, resized(taken_in[id], size)));
            told
        },
        Err(_) => Vec::new(),
    }
}

/// Nothing is waited for exactly where there is no window or no client; the
/// rest is drawn where the swap chain is known, and only taken in elsewhere.
pub proof fn law_presents_are_planned(
    hwnd_null: bool,
    connected: bool,
    swapchain_known: bool,
    plan: BlitPlan,
)
    requires
        call_ensures(blit_plan, (hwnd_null, connected, swapchain_known), plan),
    ensures
        plan is SkipNoWait <==> (hwnd_null || !connected),
        plan is DrawKnownSwapchain <==> (!hwnd_null && connected && swapchain_known),
        plan is InitNoGpu <==> (!hwnd_null && connected && !swapchain_known),
{
}

/// Before a present the overlay is drawn for a client and a window only. The
/// size that was read is noted at that window, and nothing else of it or of
/// another window changes.
pub proof fn law_size_is_noted_before_a_present(
    hwnd: usize,
    connected: bool,
    size: Option<(u32, u32)>,
    backends: &mut Backends,
    draw: bool,
    id: u32,
)
    requires
        call_ensures(begin_blit, (hwnd, connected, size, backends), draw),
    ensures
        draw <==> (hwnd != 0 && connected),
        final(backends)@.contains_key(id) <==> old(backends)@.contains_key(id),
        old(backends)@.contains_key(id) && (id != hwnd as u32 || !draw || size is None) ==> final(backends)@[id] == old(backends)@[id],
        old(backends)@.contains_key(hwnd as u32) && draw && size is Some ==> ({
            let before = old(backends)@[hwnd as u32];
            let after = final(backends)@[hwnd as u32];
            &&& after.render.window_size == size->0
            &&& after.render.layers == before.render.layers
            &&& after.proc == before.proc
            &&& after.layout == before.layout
            &&& after.id == before.id
            &&& after.gpu_id == before.gpu_id
            &&& after.proc_queue == before.proc_queue
        }),
{
}

/// After the overlay was drawn nothing is left to do. A window that it could
/// not be drawn in is known afterwards, with the size that was read; a new one
/// is told to the clients with its id, its adapter and the size that it was
/// found with, unless it could not be taken in.
pub proof fn law_undrawn_window_is_taken_in<E, F: FnOnce() -> Result<(GpuLuid, (u32, u32)), E>>(
    hwnd: usize,
    drawn: bool,
    size: Option<(u32, u32)>,
    init: F,
    backends: &mut Backends,
    sink: &mut OverlayEventSink,
    told: Vec<Delivery>,
    id: u32,
)
    requires
        call_ensures(finish_blit, (hwnd, drawn, size, init, backends, sink), told),
    ensures
        final(sink)@ == old(sink)@,
        old(backends)@.contains_key(id) ==> final(backends)@.contains_key(id),
        old(backends)@.contains_key(id) && (drawn || id != hwnd as u32) ==> final(backends)@[id]
            == old(backends)@[id],
        drawn ==> told@.len() == 0,
        old(backends)@.contains_key(hwnd as u32) ==> told@.len() == 0,
        !drawn && size is Some && final(backends)@.contains_key(hwnd as u32) ==> final(backends)@[hwnd as u32].render.window_size == size->0,
        !drawn && !old(backends)@.contains_key(hwnd as u32) ==> exists|
            found: Result<(GpuLuid, (u32, u32)), E>,
        | #[trigger]
            call_ensures(init, (), found) && (found is Err ==> told@.len() == 0 && !final(backends)@.contains_key(hwnd as u32)) && (found is Ok ==> final(backends)@.contains_key(
                hwnd as u32,
            ) && (size is None ==> final(backends)@[hwnd as u32].render.window_size
                == found->Ok_0.1) && told@ == old(sink)@.broadcast(
                OverlayEvent::Window {
                    id: hwnd as u32,
                    event: WindowEvent::Added {
                        width: found->Ok_0.1.0,
                        height: found->Ok_0.1.1,
                        gpu_id: found->Ok_0.0,
                    },
                },
            )),
{
    if !drawn && !old(backends)@.contains_key(hwnd as u32) {
        let found = choose|found: Result<(GpuLuid, (u32, u32)), E>| #[trigger]
            call_ensures(init, (), found) && match found {
                Err(_) => final(backends)@ == old(backends)@ && told@.len() == 0,
                Ok((gpu_id, known)) => {
                    &&& told@ == old(sink)@.broadcast(added(window_id(hwnd), known, gpu_id))
                    &&& exists|fresh: WindowBackend|
                        {
                            &&& #[trigger] fresh.fresh(window_id(hwnd), gpu_id, known)
                            &&& final(backends)@ == old(backends)@.insert(
                                window_id(hwnd),
                                resized(fresh, size),
                            )
                        }
                },
            };
        assert(call_ensures(init, (), found));
    }
}

} // verus!
