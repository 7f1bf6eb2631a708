//! Presents and acquired images of Vulkan.

use crate::backend::render::{OverlaySurface, RenderData, RenderState, Renderer};
use crate::compositor::independent_active;
use crate::renderer::layers::lock_texture;
use crate::util::{mailbox_sample, HeldMutexes, MailboxSample};
use vstd::prelude::*;

verus! {

pub const VK_SUCCESS: i32 = 0;

pub const VK_SUBOPTIMAL: i32 = 1000001003;

pub const VK_ERROR_UNKNOWN: i32 = -13;

/// An image that the game acquired and did not present yet.
#[derive(Debug, Clone, Copy, PartialEq, Eq, Structural)]
pub struct AcquiredMailbox {
    pub device: u64,
    pub swapchain: u64,
    pub index: u32,
}

/// An image of a swap chain.
#[derive(Debug, Clone, Copy, PartialEq, Eq, Structural)]
pub struct SwapchainImage {
    pub swapchain: u64,
    pub index: u32,
}

/// Whether a result is a success.
pub open spec fn succeeded(res: i32) -> bool {
    res == VK_SUCCESS || res == VK_SUBOPTIMAL
}

/// Whether a result is a success.
pub fn acquire_ok(res: i32) -> (ok: bool)
    ensures
        ok == succeeded(res),
{
    res == VK_SUCCESS || res == VK_SUBOPTIMAL
}

/// Remembers an acquired image, in place of the one before.
pub fn note_acquired(slot: &mut Option<AcquiredMailbox>, device: u64, swapchain: u64, index: u32)
    ensures
        *final(slot) == Some(AcquiredMailbox { device, swapchain, index }),
{
    *slot = Some(AcquiredMailbox { device, swapchain, index });
}

/// Whether an acquired image is an image of a swap chain.
pub open spec fn is_image(slot: Option<AcquiredMailbox>, image: SwapchainImage) -> bool {
    slot is Some && (slot->0).swapchain == image.swapchain && (slot->0).index == image.index
}

/// Forgets the acquired image once it is presented.
pub fn clear_if_presented(slot: &mut Option<AcquiredMailbox>, swapchain: u64, index: u32)
    ensures
        *final(slot) == if is_image(*old(slot), SwapchainImage { swapchain, index }) {
            None
        } else {
            *old(slot)
        },
{
    if let Some(mailbox) = *slot {
        if mailbox.swapchain == swapchain && mailbox.index == index {
            *slot = None;
        }
    }
}

/// Whether one of the images is the acquired one.
pub open spec fn presents(slot: Option<AcquiredMailbox>, images: Seq<SwapchainImage>) -> bool {
    exists|i: int| 0 <= i < images.len() && is_image(slot, #[trigger] images[i])
}

/// The images behind a reference, none where there is no reference.
pub open spec fn listed(images: Option<&[SwapchainImage]>) -> Seq<SwapchainImage> {
    match images {
        Some(images) => images@,
        None => Seq::empty(),
    }
}

/// Forgets the acquired image if it is one of those that were presented with
/// success.
pub fn clear_acquired_if_presented(
    slot: &mut Option<AcquiredMailbox>,
    images: Option<&[SwapchainImage]>,
    res: i32,
)
    ensures
        *final(slot) == if succeeded(res) && presents(*old(slot), listed(images)) {
            None
        } else {
            *old(slot)
        },
{
    if !acquire_ok(res) {
        return ;
    }
    if let Some(images) = images {
        let ghost before = *slot;
        let mut i: usize = 0;
        while i < images.len()
            invariant
                i <= images@.len(),
                *slot == if presents(before, images@.take(i as int)) {
                    None
                } else {
                    before
                },
            decreases images@.len() - i,
        {
            let image = images[i];
            clear_if_presented(slot, image.swapchain, image.index);
            proof {
                let now = images@.take(i + 1);
                let earlier = images@.take(i as int);
                assert(now[i as int] == image);
                if presents(before, earlier) {
                    let k = choose|k: int|
                        0 <= k < earlier.len() && is_image(before, #[trigger] earlier[k]);
                    assert(is_image(before, now[k]));
                }
                if presents(before, now) {
                    let k = choose|k: int|
                        0 <= k < now.len() && is_image(before, #[trigger] now[k]);
                    if k < i {
                        assert(is_image(before, earlier[k]));
                    }
                }
            }
            i += 1;
        }
        assert(images@.take(i as int) =~= images@);
    }
}

/// The game acquires an image: the answer, and what stands where the index goes,
/// if there is such a place. An unknown device is refused. An image that was
/// acquired is remembered; `swapchain` is its swap chain, if the game names one.
pub fn acquire_next_image<F: FnOnce(Option<u32>) -> (i32, Option<u32>)>(
    slot: &mut Option<AcquiredMailbox>,
    device: u64,
    known: bool,
    swapchain: Option<u64>,
    place: Option<u32>,
    call: F,
) -> (outcome: (i32, Option<u32>))
    requires
        known ==> call_requires(call, (place,)),
    ensures
        !known ==> outcome.0 == VK_ERROR_UNKNOWN && outcome.1 == place && *final(slot) == *old(
            slot,
        ),
        known ==> call_ensures(call, (place,), outcome) && *final(slot) == if succeeded(outcome.0)
            && swapchain is Some && outcome.1 is Some {
            Some(AcquiredMailbox { device, swapchain: swapchain->0, index: outcome.1->0 })
        } else {
            *old(slot)
        },
{
    if !known {
        return (VK_ERROR_UNKNOWN, place);
    }
    let outcome = call(place);
    if acquire_ok(outcome.0) {
        if let (Some(swapchain), Some(index)) = (swapchain, outcome.1) {
            note_acquired(slot, device, swapchain, index);
        }
    }
    outcome
}

/// What an exported present does: nothing is presented by it.
#[derive(Debug, Clone, Copy, PartialEq, Eq, Structural)]
pub enum ExportBlit {
    SkippedNoAcquire,
    Entered { swapchain: u64, index: u32 },
}

/// What an exported present does. Unless drawing is let in, nothing; else the
/// overlay is drawn into the acquired image, if there is one.
pub fn steam_overlay_present(slot: &Option<AcquiredMailbox>, draw_gate: bool) -> (blit: Option<
    ExportBlit,
>)
    ensures
        blit == if !draw_gate {
            None
        } else {
            match *slot {
                None => Some(ExportBlit::SkippedNoAcquire),
                Some(mailbox) => Some(
                    ExportBlit::Entered { swapchain: mailbox.swapchain, index: mailbox.index },
                ),
            }
        },
{
    if !draw_gate {
        return None;
    }
    match slot {
        None => Some(ExportBlit::SkippedNoAcquire),
        Some(mailbox) => Some(
            ExportBlit::Entered { swapchain: mailbox.swapchain, index: mailbox.index },
        ),
    }
}

/// Where an exported present draws from: the first queue of the device, and its
/// family, the first one where that is not known. Without a device or a queue it
/// does not draw.
pub fn export_queue(
    queues: Option<&[u64]>,
    family: impl FnOnce(u64) -> Option<u32>,
) -> (queue: Option<(u64, u32)>)
    requires
        queues is Some && (queues->0)@.len() > 0 ==> call_requires(family, ((queues->0)@[0],)),
    ensures
        queues is None || (queues->0)@.len() == 0 ==> queue is None,
        queues is Some && (queues->0)@.len() > 0 ==> exists|index: Option<u32>| #[trigger]
            call_ensures(family, ((queues->0)@[0],), index) && queue == Some(
                (
                    (queues->0)@[0],
                    match index {
                        Some(index) => index,
                        None => 0,
                    },
                ),
            ),
{
    match queues {
        None => None,
        Some(queues) => {
            if queues.len() == 0 {
                return None;
            }
            let queue: u64 = queues[0];
            let index = family(queue);
            assert(call_ensures(family, (queue,), index));
            match index {
                Some(index) => Some((queue, index)),
                None => Some((queue, 0)),
            }
        },
    }
}

/// Whether a present can go on: its queue, the device's functions and the real
/// present are known. Else it is refused.
pub fn begin_present(queue: bool, table: bool, queue_present: bool) -> (ready: Result<(), i32>)
    ensures
        ready == if queue && table && queue_present {
            Ok::<(), i32>(())
        } else {
            Err(VK_ERROR_UNKNOWN)
        },
{
    if !queue || !table || !queue_present {
        return Err(VK_ERROR_UNKNOWN);
    }
    Ok(())
}

/// What comes of a present: the answer, and the locks that are released.
pub struct Presented {
    pub answer: i32,
    pub released: Vec<usize>,
}

/// The real present, after the overlay was drawn. What it waits for is what
/// drawing left in `semaphores`; where that is nothing, it is what the game
/// said. Then locks are released, and the acquired image is forgotten.
pub fn finish_present<F: FnOnce(Vec<u64>) -> i32>(
    slot: &mut Option<AcquiredMailbox>,
    holds: &mut HeldMutexes,
    semaphores: &mut Vec<u64>,
    images: Option<&[SwapchainImage]>,
    call: F,
) -> (done: Presented)
    requires
        forall|waits: Vec<u64>|
            waits@ == old(semaphores)@ ==> #[trigger] call_requires(call, (waits,)),
    ensures
        exists|waits: Vec<u64>, answer: i32|
            waits@ == old(semaphores)@ && #[trigger] call_ensures(call, (waits,), answer)
                && done.answer == answer,
        done.released@ == old(holds)@,
        final(holds)@.len() == 0,
        final(semaphores)@.len() == 0,
        *final(slot) == if succeeded(done.answer) && presents(*old(slot), listed(images)) {
            None
        } else {
            *old(slot)
        },
{
    let mut waits: Vec<u64> = Vec::new();
    std::mem::swap(&mut waits, semaphores);
    let answer: i32 = call(waits);
    assert(call_ensures(call, (waits,), answer));
    let released = holds.release_keyed_mutex_holds();
    clear_acquired_if_presented(slot, images, answer);
    Presented { answer, released }
}

/// Whether the overlay is drawn in a window. The first time only the interface
/// is noted, since another one may turn out to draw.
pub fn draws_in(render: &mut RenderData) -> (draw: bool)
    ensures
        final(render)@ == match old(render)@.renderer {
            None => RenderState { renderer: Some(Renderer::Vulkan), ..old(render)@ },
            Some(_) => old(render)@,
        },
        draw == (old(render)@.renderer == Some(Renderer::Vulkan)),
{
    match render.renderer {
        Some(renderer) => renderer == Renderer::Vulkan,
        None => {
            render.renderer = Some(Renderer::Vulkan);
            false
        },
    }
}

/// The change of the texture that comes before drawing, once for each change:
/// the surface that it is opened from, or none.
pub fn texture_update(render: &mut RenderData) -> (update: Option<Option<OverlaySurface>>)
    ensures
        update == if old(render)@.surface.updated {
            Some(old(render)@.surface.inner)
        } else {
            None
        },
        final(render)@ == (RenderState {
            surface: old(render)@.surface.announced(),
            ..old(render)@
        }),
{
    if render.surface.invalidate_update() {
        Some(render.surface.get())
    } else {
        None
    }
}

/// Whether the overlay is drawn from its texture: only under the lock, since
/// there is no copy.
pub fn samples(lock_held: bool) -> (live: bool)
    ensures
        live == lock_held,
{
    match mailbox_sample(lock_held, false) {
        MailboxSample::Live => true,
        MailboxSample::Skip | MailboxSample::Cache => false,
    }
}

/// Whether `semaphore` is what drawing a surface leaves to be waited for: it is
/// drawn under its lock only. `after` are the locks that are held then.
pub open spec fn draws_surface<
    A: FnOnce(usize, u32) -> i32,
    D: FnOnce(OverlaySurface, (i32, i32), (u32, u32)) -> Option<u64>,
>(
    state: RenderState,
    mutex: Option<usize>,
    acquire: A,
    draw: D,
    before: Seq<usize>,
    after: Seq<usize>,
    semaphore: Option<u64>,
) -> bool {
    match state.surface.inner {
        None => semaphore is None && after == before,
        Some(surface) => exists|held: Option<bool>| #[trigger]
            crate::renderer::layers::locks(before, mutex, acquire, after, held) && if held == Some(
                true,
            ) {
                call_ensures(draw, (surface, state.position, state.window_size), semaphore)
            } else {
                semaphore is None
            },
    }
}

/// Whether drawing can come to the surface of a window: the window is drawn with
/// this interface, what it is drawn with can be found, a change of the texture can
/// be taken in, and there is a surface.
pub open spec fn may_draw<P: FnOnce() -> bool, U: FnOnce(Option<OverlaySurface>) -> bool>(
    state: RenderState,
    ready: P,
    update: U,
) -> bool {
    &&& state.renderer == Some(Renderer::Vulkan)
    &&& call_ensures(ready, (), true)
    &&& state.surface.updated ==> call_ensures(update, (state.surface.inner,), true)
    &&& state.surface.inner is Some
}

/// Draws the overlay into an image of a window: first `ready` finds what it is
/// drawn with, then `update` takes a change of the texture in, and then `draw`
/// draws, under the lock `mutex` of the surface, if it has one. What `draw` leaves
/// to be waited for is returned. Each step may fail, and ends the drawing then; a
/// change of the texture is taken in once, even if that fails.
pub fn draw_overlay<
    P: FnOnce() -> bool,
    U: FnOnce(Option<OverlaySurface>) -> bool,
    A: FnOnce(usize, u32) -> i32,
    D: FnOnce(OverlaySurface, (i32, i32), (u32, u32)) -> Option<u64>,
>(
    render: &mut RenderData,
    holds: &mut HeldMutexes,
    ready: P,
    update: U,
    mutex: Option<usize>,
    acquire: A,
    draw: D,
) -> (semaphore: Option<u64>)
    requires
        old(render)@.renderer == Some(Renderer::Vulkan) ==> call_requires(ready, ()),
        old(render)@.renderer == Some(Renderer::Vulkan) && call_ensures(ready, (), true) && old(
            render,
        )@.surface.updated ==> call_requires(update, (old(render)@.surface.inner,)),
        may_draw(old(render)@, ready, update) && crate::util::to_take(old(holds)@, mutex)
            ==> call_requires(acquire, (mutex->0, crate::util::KEYED_MUTEX_TIMEOUT_MS)),
        may_draw(old(render)@, ready, update) && crate::renderer::layers::may_lock(
            old(holds)@,
            mutex,
            acquire,
        ) ==> call_requires(
            draw,
            (old(render)@.surface.inner->0, old(render)@.position, old(render)@.window_size),
        ),
    ensures
        old(render)@.renderer != Some(Renderer::Vulkan) ==> {
            &&& semaphore is None
            &&& final(holds)@ == old(holds)@
            &&& final(render)@ == match old(render)@.renderer {
                None => RenderState { renderer: Some(Renderer::Vulkan), ..old(render)@ },
                Some(_) => old(render)@,
            }
        },
        old(render)@.renderer == Some(Renderer::Vulkan) ==> exists|found: bool| #[trigger]
            call_ensures(ready, (), found) && if !found {
                &&& semaphore is None
                &&& final(holds)@ == old(holds)@
                &&& final(render)@ == old(render)@
            } else {
                &&& final(render)@ == (RenderState {
                    surface: old(render)@.surface.announced(),
                    ..old(render)@
                })
                &&& if old(render)@.surface.updated {
                    exists|taken: bool| #[trigger]
                        call_ensures(update, (old(render)@.surface.inner,), taken) && if taken {
                            draws_surface(
                                old(render)@,
                                mutex,
                                acquire,
                                draw,
                                old(holds)@,
                                final(holds)@,
                                semaphore,
                            )
                        } else {
                            semaphore is None && final(holds)@ == old(holds)@
                        }
                } else {
                    draws_surface(
                        old(render)@,
                        mutex,
                        acquire,
                        draw,
                        old(holds)@,
                        final(holds)@,
                        semaphore,
                    )
                }
            },
{
    if independent_active() {
        return None;
    }
    if !draws_in(render) {
        return None;
    }
    let found = ready();
    assert(call_ensures(ready, (), found));
    if !found {
        return None;
    }
    if let Some(changed) = texture_update(render) {
        let taken = update(changed);
        assert(call_ensures(update, (changed,), taken));
        if !taken {
            return None;
        }
    }
    let surface = match render.surface.get() {
        Some(surface) => surface,
        None => {
            return None;
        },
    };
    let held = lock_texture(holds, mutex, acquire);
    assert(crate::renderer::layers::locks(old(holds)@, mutex, acquire, holds@, held));
    match held {
        Some(held) => if samples(held) {
            draw(surface, render.position, render.window_size)
        } else {
            None
        },
        None => None,
    }
}

/// An image that was acquired and then presented is not drawn into by a later
/// exported present; one whose present failed still is.
pub proof fn law_presented_image_is_forgotten(
    mailbox: AcquiredMailbox,
    images: Seq<SwapchainImage>,
    i: int,
)
    requires
        0 <= i < images.len(),
        images[i] == (SwapchainImage { swapchain: mailbox.swapchain, index: mailbox.index }),
    ensures
        presents(Some(mailbox), images),
        !presents(None, images),
{
    assert(is_image(Some(mailbox), images[i]));
}

/// Two results are successes: 0, and 1000001003 for one that is not optimal.
pub proof fn law_two_results_are_successes(res: i32, ok: bool)
    requires
        call_ensures(acquire_ok, (res,), ok),
    ensures
        ok <==> (res == 0 || res == 1000001003),
{
}

/// An image that was acquired is drawn into by an exported present until it is
/// presented itself; another image's present changes nothing.
pub proof fn law_acquired_image_is_drawn_into_until_presented(
    slot: &mut Option<AcquiredMailbox>,
    device: u64,
    swapchain: u64,
    index: u32,
    acquired: Option<AcquiredMailbox>,
    blit: Option<ExportBlit>,
    shut: Option<ExportBlit>,
    next: &mut Option<AcquiredMailbox>,
    other_swapchain: u64,
    other_index: u32,
    presented: Option<AcquiredMailbox>,
    later: Option<ExportBlit>,
)
    requires
        call_ensures(note_acquired, (slot, device, swapchain, index), ()),
        acquired == *final(slot),
        call_ensures(steam_overlay_present, (&acquired, true), blit),
        call_ensures(steam_overlay_present, (&acquired, false), shut),
        *next == acquired,
        call_ensures(clear_if_presented, (next, other_swapchain, other_index), ()),
        presented == *final(next),
        call_ensures(steam_overlay_present, (&presented, true), later),
    ensures
        blit == Some(ExportBlit::Entered { swapchain, index }),
        shut is None,
        acquired is Some && acquired->0.device == device,
        other_swapchain == swapchain && other_index == index ==> later == Some(
            ExportBlit::SkippedNoAcquire,
        ),
        other_swapchain != swapchain || other_index != index ==> later == blit && presented
            == acquired,
{
}

/// A successful present forgets the acquired image if it is among the presented
/// ones, by its swap chain and index; any other present leaves it.
pub proof fn law_presented_image_is_forgotten_on_success(
    slot: &mut Option<AcquiredMailbox>,
    images: Option<&[SwapchainImage]>,
    res: i32,
    ok: bool,
    i: int,
)
    requires
        call_ensures(clear_acquired_if_presented, (slot, images, res), ()),
        call_ensures(acquire_ok, (res,), ok),
    ensures
        !ok || images is None || *old(slot) is None ==> *final(slot) == *old(slot),
        *final(slot) is None || *final(slot) == *old(slot),
        ok && images is Some && *old(slot) is Some && 0 <= i < images->0@.len()
            && images->0@[i].swapchain == (*old(slot))->0.swapchain && images->0@[i].index == (
        *old(slot))->0.index ==> *final(slot) is None,
        ok && images is Some && *old(slot) is Some && (forall|k: int|
            0 <= k < images->0@.len() ==> (#[trigger] images->0@[k]).swapchain != (*old(slot))->0.swapchain || images->0@[k].index != (*old(slot))->0.index) ==> *final(slot)
            == *old(slot),
{
    if images is Some && 0 <= i < images->0@.len() {
        let image = listed(images)[i];
        assert(image == images->0@[i]);
    }
    if images is Some && presents(*old(slot), listed(images)) {
        let k = choose|k: int|
            0 <= k < listed(images).len() && is_image(*old(slot), #[trigger] listed(images)[k]);
        assert(images->0@[k] == listed(images)[k]);
    }
}

/// An unknown device is refused with -13 and nothing changes. Else the real
/// function answers, and an image that it acquired for a named swap chain is
/// the one that is remembered.
pub proof fn law_acquired_image_is_remembered<F: FnOnce(Option<u32>) -> (i32, Option<u32>)>(
    slot: &mut Option<AcquiredMailbox>,
    device: u64,
    known: bool,
    swapchain: Option<u64>,
    place: Option<u32>,
    call: F,
    outcome: (i32, Option<u32>),
    ok: bool,
)
    requires
        call_ensures(
            acquire_next_image::<F>,
            (slot, device, known, swapchain, place, call),
            outcome,
        ),
        call_ensures(acquire_ok, (outcome.0,), ok),
    ensures
        !known ==> outcome.0 == -13 && outcome.1 == place && *final(slot) == *old(slot),
        known ==> call_ensures(call, (place,), outcome),
        known && ok && swapchain is Some && outcome.1 is Some ==> *final(slot) is Some && (*final(slot))->0.device == device && (*final(slot))->0.swapchain == swapchain->0 && (*final(slot))->0.index == outcome.1->0,
        !ok || swapchain is None || outcome.1 is None ==> *final(slot) == *old(slot),
{
}

/// An exported present does nothing unless it is let in, and without an acquired
/// image draws nowhere.
pub proof fn law_export_needs_an_acquired_image(
    slot: Option<AcquiredMailbox>,
    draw_gate: bool,
    blit: Option<ExportBlit>,
)
    requires
        call_ensures(steam_overlay_present, (&slot, draw_gate), blit),
    ensures
        blit is Some <==> draw_gate,
        draw_gate && slot is None ==> blit->0 is SkippedNoAcquire,
        draw_gate && slot is Some ==> blit == Some(
            ExportBlit::Entered { swapchain: slot->0.swapchain, index: slot->0.index },
        ),
{
}

/// An exported present draws from the device's first queue with its family, or
/// the first family where that is not known; without a queue it does not draw.
pub proof fn law_export_draws_from_the_first_queue<F: FnOnce(u64) -> Option<u32>>(
    queues: Option<&[u64]>,
    family: F,
    queue: Option<(u64, u32)>,
)
    requires
        call_ensures(export_queue, (queues, family), queue),
    ensures
        queues is None || queues->0@.len() == 0 ==> queue is None,
        queues is Some && queues->0@.len() > 0 ==> queue is Some && (queue->0).0 == queues->0@[0]
            && exists|index: Option<u32>| #[trigger]
            call_ensures(family, (queues->0@[0],), index) && (index is Some ==> (queue->0).1
                == index->0) && (index is None ==> (queue->0).1 == 0),
{
    if queues is Some && queues->0@.len() > 0 {
        let index = choose|index: Option<u32>| #[trigger]
            call_ensures(family, ((queues->0)@[0],), index) && queue == Some(
                (
                    (queues->0)@[0],
                    match index {
                        Some(index) => index,
                        None => 0,
                    },
                ),
            );
        assert(call_ensures(family, (queues->0@[0],), index));
    }
}

/// A present goes on only with its queue, its device's functions and the real
/// present; else it is refused with -13.
pub proof fn law_present_needs_all_it_uses(
    queue: bool,
    table: bool,
    queue_present: bool,
    ready: Result<(), i32>,
)
    requires
        call_ensures(begin_present, (queue, table, queue_present), ready),
    ensures
        ready is Ok <==> (queue && table && queue_present),
        ready is Err ==> ready->Err_0 == -13,
{
}

/// The real present waits for what drawing left, its answer is given back, and
/// after it every lock is released, once, and nothing is left to wait for.
pub proof fn law_present_releases_every_lock<F: FnOnce(Vec<u64>) -> i32>(
    slot: &mut Option<AcquiredMailbox>,
    holds: &mut HeldMutexes,
    semaphores: &mut Vec<u64>,
    images: Option<&[SwapchainImage]>,
    call: F,
    done: Presented,
    ok: bool,
)
    requires
        call_ensures(finish_present::<F>, (slot, holds, semaphores, images, call), done),
        call_ensures(acquire_ok, (done.answer,), ok),
    ensures
        done.released@ == old(holds)@,
        final(holds)@.len() == 0 && final(semaphores)@.len() == 0,
        exists|waits: Vec<u64>| #[trigger]
            call_ensures(call, (waits,), done.answer) && waits@ == old(semaphores)@,
        !ok ==> *final(slot) == *old(slot),
        ok && *old(slot) is Some && images is Some && images->0@.len() > 0
            && images->0@[0].swapchain == (*old(slot))->0.swapchain && images->0@[0].index == (
        *old(slot))->0.index ==> *final(slot) is None,
{
    let (waits, answer) = choose|waits: Vec<u64>, answer: i32|
        waits@ == old(semaphores)@ && #[trigger] call_ensures(call, (waits,), answer)
            && done.answer == answer;
    assert(call_ensures(call, (waits,), done.answer));
    if images is Some && images->0@.len() > 0 {
        assert(listed(images)[0] == images->0@[0]);
    }
}

/// A window is drawn in from the second frame on: the first one that finds
/// nobody drawing only notes this interface. One of another interface is left
/// to it.
pub proof fn law_second_frame_draws(
    render: &mut RenderData,
    draw: bool,
    next: &mut RenderData,
    again: bool,
)
    requires
        call_ensures(draws_in, (render,), draw),
        *next == *final(render),
        call_ensures(draws_in, (next,), again),
    ensures
        old(render)@.renderer is None ==> !draw && again && final(render)@.renderer == Some(
            Renderer::Vulkan,
        ),
        old(render)@.renderer is Some ==> final(render)@ == old(render)@ && again == draw,
        old(render)@.renderer is Some ==> (draw <==> old(render)@.renderer->0 is Vulkan),
        final(render)@.surface == old(render)@.surface && final(render)@.layers == old(render)@.layers,
{
}

/// A change of the texture is told once, with the surface that there is.
pub proof fn law_texture_change_is_told_once(
    render: &mut RenderData,
    update: Option<Option<OverlaySurface>>,
    next: &mut RenderData,
    again: Option<Option<OverlaySurface>>,
)
    requires
        call_ensures(texture_update, (render,), update),
        *next == *final(render),
        call_ensures(texture_update, (next,), again),
    ensures
        update is Some <==> old(render)@.surface.updated,
        update is Some ==> update->0 == old(render)@.surface.inner,
        again is None,
        final(next)@.surface.inner == old(render)@.surface.inner,
        final(render)@.renderer == old(render)@.renderer && final(render)@.layers == old(render)@.layers,
{
}

/// The overlay is drawn under the lock only.
pub proof fn law_drawing_needs_the_lock(lock_held: bool, live: bool)
    requires
        call_ensures(samples, (lock_held,), live),
    ensures
        live <==> lock_held,
{
}

/// Something is left to wait for only where this interface draws in the window,
/// what it draws with was found, and there is a surface; it is what drawing that
/// surface at the window's place and size left. Other windows keep their locks.
pub proof fn law_drawing_leaves_what_to_wait_for<
    P: FnOnce() -> bool,
    U: FnOnce(Option<OverlaySurface>) -> bool,
    A: FnOnce(usize, u32) -> i32,
    D: FnOnce(OverlaySurface, (i32, i32), (u32, u32)) -> Option<u64>,
>(
    render: &mut RenderData,
    holds: &mut HeldMutexes,
    ready: P,
    update: U,
    mutex: Option<usize>,
    acquire: A,
    draw: D,
    semaphore: Option<u64>,
)
    requires
        call_ensures(
            draw_overlay::<P, U, A, D>,
            (render, holds, ready, update, mutex, acquire, draw),
            semaphore,
        ),
    ensures
        old(render)@.renderer != Some(Renderer::Vulkan) ==> semaphore is None && final(holds)@
            == old(holds)@,
        old(render)@.renderer is None ==> final(render)@.renderer == Some(Renderer::Vulkan),
        old(render)@.renderer is Some ==> final(render)@.renderer == old(render)@.renderer,
        semaphore is Some ==> old(render)@.surface.inner is Some && call_ensures(ready, (), true)
            && call_ensures(
            draw,
            (old(render)@.surface.inner->0, old(render)@.position, old(render)@.window_size),
            semaphore,
        ) && !final(render)@.surface.updated,
        semaphore is Some && old(render)@.surface.updated ==> call_ensures(
            update,
            (old(render)@.surface.inner,),
            true,
        ),
        semaphore is Some && mutex is Some ==> final(holds)@.contains(mutex->0),
        final(render)@.surface.inner == old(render)@.surface.inner,
{
    let state = old(render)@;
    if state.renderer == Some(Renderer::Vulkan) && semaphore is Some {
        assert(draws_surface(
            state,
            mutex,
            acquire,
            draw,
            old(holds)@,
            final(holds)@,
            semaphore,
        ));
        let held = choose|held: Option<bool>| #[trigger]
            crate::renderer::layers::locks(old(holds)@, mutex, acquire, final(holds)@, held)
                && if held == Some(true) {
                call_ensures(
                    draw,
                    (state.surface.inner->0, state.position, state.window_size),
                    semaphore,
                )
            } else {
                semaphore is None
            };
        assert(crate::renderer::layers::locks(
            old(holds)@,
            mutex,
            acquire,
            final(holds)@,
            held,
        ));
        if mutex is Some && !old(holds)@.contains(mutex->0) {
            assert(final(holds)@.last() == mutex->0);
        }
    }
}

} // verus!
