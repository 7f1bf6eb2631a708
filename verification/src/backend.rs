//! State of the windows that the overlay is drawn in.

pub mod render;
pub mod window;

use crate::backend::render::{OverlaySurface, RenderData};
use crate::backend::window::input_ll::{
    acquire, activate_route, deactivate_route, release, update_route_position, LowLevelInput,
};
use crate::backend::window::{InputBlockData, ListenInputFlags, WindowProcData};
use crate::event::{GpuLuid, OverlayEvent, WindowEvent};
use crate::event_sink::{Delivery, LayerRect, OverlayEventSink};
use crate::geometry::{LayerInputRect, OverlayLayout, PercentLength, Rect};
use crate::int_map::{
    backend_blocking, backend_ids, backend_insert, backend_map, backend_remove, BackendMap,
};
use crate::paint_cmd::BlockingCursor;
use crate::texture::SharedHandle;
use std::collections::VecDeque;
use vstd::prelude::*;

verus! {

broadcast use {vstd::laws_cmp::group_laws_cmp, vstd::std_specs::btree::group_btree_axioms};

/// Work that waits for the thread of a window.
#[derive(Debug, Clone, Copy, PartialEq, Eq, Structural)]
pub enum GuiTask {
    /// Start to block the game's input.
    Block,
    /// Stop to block the game's input.
    Unblock,
}

/// A window that the overlay is drawn in.
pub struct WindowBackend {
    pub id: u32,
    pub gpu_id: GpuLuid,
    pub layout: OverlayLayout,
    pub proc: WindowProcData,
    pub render: RenderData,
    pub proc_queue: VecDeque<GuiTask>,
}

/// What starts to block the game's input.
#[derive(Debug, Clone, Copy, PartialEq, Eq)]
pub struct BlockStart {
    /// The cursor to show; where it has no shape, the arrow is shown.
    pub cursor: BlockingCursor,
    /// Where the overlay surface starts in the window.
    pub position: (i32, i32),
}

/// What stops to block the game's input.
#[derive(Debug, Clone, Copy, PartialEq, Eq, Structural)]
pub struct BlockEnd {
    /// What to put back.
    pub data: InputBlockData,
    /// The window has captured the mouse, and is to let it go.
    pub release_capture: bool,
    /// The low-level hooks are to be removed.
    pub remove_hooks: bool,
}

/// The clip of the cursor to put back later; none where it was the whole screen.
pub fn saved_clip(clip: Rect, screen_width: i32, screen_height: i32) -> (saved: Option<Rect>)
    ensures
        saved == (if clip == (Rect {
            left: 0,
            top: 0,
            right: screen_width,
            bottom: screen_height,
        }) {
            None
        } else {
            Some(clip)
        }),
{
    let screen = Rect { left: 0, top: 0, right: screen_width, bottom: screen_height };
    if clip != screen {
        Some(clip)
    } else {
        None
    }
}

/// Whether `position` is where a place relative to a window ends up.
pub open spec fn resolves<F: Fn(PercentLength, u32) -> i32>(
    resolve: F,
    place: (PercentLength, PercentLength),
    window_size: (u32, u32),
    position: (i32, i32),
) -> bool {
    &&& call_ensures(resolve, (place.0, window_size.0), position.0)
    &&& call_ensures(resolve, (place.1, window_size.1), position.1)
}

fn resolve_place<F: Fn(PercentLength, u32) -> i32>(
    resolve: &F,
    place: (PercentLength, PercentLength),
    window_size: (u32, u32),
) -> (position: (i32, i32))
    requires
        forall|length: PercentLength, whole: u32| call_requires(*resolve, (length, whole)),
    ensures
        resolves(*resolve, place, window_size, position),
{
    (resolve(place.0, window_size.0), resolve(place.1, window_size.1))
}

impl WindowBackend {
    /// The state of a window that was just found.
    pub open spec fn fresh(self, id: u32, gpu_id: GpuLuid, window_size: (u32, u32)) -> bool {
        &&& self.id == id
        &&& self.gpu_id == gpu_id
        &&& self.layout == OverlayLayout::origin()
        &&& self.proc == WindowProcData::fresh()
        &&& self.render@ == crate::backend::render::RenderState::fresh(window_size)
        &&& self.proc_queue@ == Seq::<GuiTask>::empty()
    }

    /// The state of a window that was just found.
    pub fn new(id: u32, gpu_id: GpuLuid, window_size: (u32, u32)) -> (backend: WindowBackend)
        ensures
            backend.fresh(id, gpu_id, window_size),
    {
        WindowBackend {
            id,
            gpu_id,
            layout: OverlayLayout::new(),
            proc: WindowProcData::new(),
            render: RenderData::new(window_size),
            proc_queue: VecDeque::new(),
        }
    }

    /// Queues work for the thread of the window.
    pub fn execute_gui(&mut self, task: GuiTask)
        ensures
            final(self).proc_queue@ == old(self).proc_queue@.push(task),
            final(self).id == old(self).id,
            final(self).gpu_id == old(self).gpu_id,
            final(self).layout == old(self).layout,
            final(self).proc == old(self).proc,
            final(self).render == old(self).render,
    {
        self.proc_queue.push_back(task);
    }

    /// Has the thread of the window block the game's input, or stop to.
    pub fn block_input(&mut self, block: bool)
        ensures
            final(self).proc_queue@ == old(self).proc_queue@.push(
                if block {
                    GuiTask::Block
                } else {
                    GuiTask::Unblock
                },
            ),
            final(self).id == old(self).id,
            final(self).gpu_id == old(self).gpu_id,
            final(self).layout == old(self).layout,
            final(self).proc == old(self).proc,
            final(self).render == old(self).render,
    {
        if block {
            self.execute_gui(GuiTask::Block);
        } else {
            self.execute_gui(GuiTask::Unblock);
        }
    }

    /// Takes back everything that clients set.
    pub fn reset(&mut self)
        ensures
            final(self).was_reset(*old(self)),
    {
        self.layout = OverlayLayout::new();
        self.render.reset();
        self.proc.reset();
        self.block_input(false);
    }

    /// Whether the window is as `before` was, but for what clients set; its
    /// thread is to stop blocking input.
    pub open spec fn was_reset(self, before: WindowBackend) -> bool {
        &&& self.id == before.id
        &&& self.gpu_id == before.gpu_id
        &&& self.layout == OverlayLayout::origin()
        &&& self.proc == before.proc.after_reset()
        &&& self.render@ == before.render@.after_reset()
        &&& self.proc_queue@ == before.proc_queue@.push(GuiTask::Unblock)
    }

    /// The graphics adapter that the window is drawn with.
    pub fn gpu_luid(&self) -> (luid: GpuLuid)
        ensures
            luid == self.gpu_id,
    {
        self.gpu_id
    }

    /// The layout of layer 0.
    pub fn layout(&self) -> (layout: OverlayLayout)
        ensures
            layout == self.layout,
    {
        self.layout
    }

    /// Sets what clients listen to.
    pub fn listen_input(&mut self, flags: ListenInputFlags)
        ensures
            *final(self) == (WindowBackend {
                proc: WindowProcData { listen_input: flags, ..old(self).proc },
                ..*old(self)
            }),
    {
        self.proc.listen_input = flags;
    }

    /// Sets the cursor that is shown while input is blocked.
    pub fn set_blocking_cursor(&mut self, cursor: BlockingCursor)
        ensures
            *final(self) == (WindowBackend {
                proc: WindowProcData { blocking_cursor: cursor, ..old(self).proc },
                ..*old(self)
            }),
    {
        self.proc.blocking_cursor = cursor;
    }

    /// The window with its input blocked.
    pub open spec fn blocked(self, data: InputBlockData) -> WindowBackend {
        WindowBackend {
            proc: WindowProcData { blocking_state: Some(data), ..self.proc },
            ..self
        }
    }

    /// The window with its input not blocked.
    pub open spec fn unblocked(self) -> WindowBackend {
        WindowBackend { proc: WindowProcData { blocking_state: None, ..self.proc }, ..self }
    }

    /// The low-level hooks after this window started to block input, with the
    /// overlay surface at a position.
    pub open spec fn route_entered(
        self,
        route: LowLevelInput,
        position: (i32, i32),
    ) -> LowLevelInput {
        LowLevelInput { route_hwnd: self.id, route_position: position, ..route }.acquired()
    }

    /// The low-level hooks after this window stopped to block input.
    pub open spec fn route_left(self, route: LowLevelInput) -> LowLevelInput {
        LowLevelInput {
            route_hwnd: if route.route_hwnd == self.id {
                0
            } else {
                route.route_hwnd
            },
            ..route
        }.released()
    }

    /// Starts to block the game's input on the thread of the window: tells the
    /// cursor to show, and where the surface starts by now, unless input is
    /// blocked already.
    pub fn begin_block(&self) -> (start: Option<BlockStart>)
        ensures
            start == (if self.proc.blocking_state is Some {
                None
            } else {
                Some(
                    BlockStart {
                        cursor: self.proc.blocking_cursor,
                        position: self.proc.position,
                    },
                )
            }),
    {
        if self.proc.blocking_state.is_some() {
            return None;
        }
        Some(BlockStart { cursor: self.proc.blocking_cursor, position: self.proc.position })
    }

    /// Input is blocked from now on, and comes in through the low-level hooks;
    /// tells whether they are to be installed. `data` is what to put back, and
    /// `start` is what blocking was started with: input is routed to where the
    /// surface started then.
    pub fn finish_block(
        &mut self,
        start: BlockStart,
        data: InputBlockData,
        route: &mut LowLevelInput,
    ) -> (install: bool)
        ensures
            *final(self) == old(self).blocked(data),
            install == old(route).installs(),
            *final(route) == old(self).route_entered(*old(route), start.position),
    {
        self.proc.blocking_state = Some(data);
        activate_route(route, self.id, start.position);
        acquire(route)
    }

    /// Stops to block the game's input on the thread of the window: tells what
    /// to put back, unless input is not blocked. `captured` is the window that
    /// has captured the mouse. Clients are told that blocking ended.
    pub fn end_block(
        &mut self,
        captured: u32,
        route: &mut LowLevelInput,
        sink: &mut OverlayEventSink,
    ) -> (ended: Option<(BlockEnd, Vec<Delivery>)>)
        ensures
            match old(self).proc.blocking_state {
                None => ended is None && *final(self) == *old(self) && *final(route) == *old(route)
                    && *final(sink) == *old(sink),
                Some(data) => {
                    &&& *final(self) == old(self).unblocked()
                    &&& *final(route) == old(self).route_left(*old(route))
                    &&& final(sink)@ == old(sink)@
                    &&& ended matches Some((end, told))
                    &&& end == (BlockEnd {
                        data,
                        release_capture: captured == old(self).id,
                        remove_hooks: old(route).removes(),
                    })
                    &&& told@ == old(sink)@.broadcast(
                        OverlayEvent::Window {
                            id: old(self).id,
                            event: WindowEvent::InputBlockingEnded,
                        },
                    )
                },
            },
    {
        let data = match self.proc.blocking_state {
            Some(data) => data,
            None => {
                return None;
            },
        };
        self.proc.blocking_state = None;
        deactivate_route(route, self.id);
        let remove_hooks = release(route);
        let told = sink.emit(
            OverlayEvent::Window { id: self.id, event: WindowEvent::InputBlockingEnded },
        );
        Some((BlockEnd { data, release_capture: captured == self.id, remove_hooks }, told))
    }

    /// Work that waits for the thread of the window, first come first.
    pub fn take_tasks(&mut self) -> (tasks: VecDeque<GuiTask>)
        ensures
            tasks@ == old(self).proc_queue@,
            final(self).proc_queue@ == Seq::<GuiTask>::empty(),
            final(self).id == old(self).id,
            final(self).gpu_id == old(self).gpu_id,
            final(self).layout == old(self).layout,
            final(self).proc == old(self).proc,
            final(self).render == old(self).render,
    {
        let mut tasks: VecDeque<GuiTask> = VecDeque::new();
        std::mem::swap(&mut self.proc_queue, &mut tasks);
        tasks
    }
}

/// What is known of a window.
#[verifier::ext_equal]
pub struct WindowState {
    pub id: u32,
    pub gpu_id: GpuLuid,
    pub layout: OverlayLayout,
    pub proc: WindowProcData,
    pub render: crate::backend::render::RenderState,
    pub proc_queue: Seq<GuiTask>,
}

impl View for WindowBackend {
    type V = WindowState;

    open spec fn view(&self) -> WindowState {
        WindowState {
            id: self.id,
            gpu_id: self.gpu_id,
            layout: self.layout,
            proc: self.proc,
            render: self.render@,
            proc_queue: self.proc_queue@,
        }
    }
}

/// Whether a layer from 1 on was moved to the place that was asked for, if any.
pub open spec fn layer_placed<F: Fn(PercentLength, u32) -> i32>(
    before: crate::backend::render::LayerState,
    after: crate::backend::render::LayerState,
    window_size: (u32, u32),
    resolve: F,
) -> bool {
    match before.pos_pct {
        Some(place) => {
            &&& after == crate::backend::render::LayerState { position: after.position, ..before }
            &&& resolves(resolve, place, window_size, after.position)
        },
        None => after == before,
    }
}

impl WindowState {
    /// Size of the surface of layer 0; nothing where there is none.
    pub open spec fn surface_size(self) -> (u32, u32) {
        match self.render.surface.inner {
            Some(surface) => surface.size,
            None => (0, 0),
        }
    }

    /// Whether `after` is this window with its layers moved to their places:
    /// layer 0 to the place that was asked for, or else to where its layout puts
    /// it, the other layers to the places that were asked for.
    pub open spec fn laid_out<
        C: Fn(OverlayLayout, (u32, u32), (u32, u32)) -> (i32, i32),
        F: Fn(PercentLength, u32) -> i32,
    >(self, after: WindowState, calc: C, resolve: F) -> bool {
        let position = after.render.position;
        let size = self.render.window_size;
        &&& after == WindowState {
            proc: WindowProcData { position, ..self.proc },
            render: crate::backend::render::RenderState {
                position,
                layers: after.render.layers,
                ..self.render
            },
            ..self
        }
        &&& match self.render.layer0_pos_pct {
            Some(place) => resolves(resolve, place, size, position),
            None => call_ensures(calc, (self.layout, self.surface_size(), size), position),
        }
        &&& after.render.layers.dom() == self.render.layers.dom()
        &&& forall|key: u32| #[trigger]
            self.render.layers.contains_key(key) ==> layer_placed(
                self.render.layers[key],
                after.render.layers[key],
                size,
                resolve,
            )
    }
}

/// Whether a new layout was published: to the route, if there is one, and to
/// the sink as the places where the layers of the window take input.
pub open spec fn published<F: Fn(PercentLength, u32) -> i32>(
    window: WindowState,
    resolve: F,
    route_before: LowLevelInput,
    route_after: LowLevelInput,
    sink_before: crate::event_sink::SinkState,
    sink_after: crate::event_sink::SinkState,
) -> bool {
    &&& route_after == (if route_before.route_hwnd != 0 {
        LowLevelInput { route_position: window.render.position, ..route_before }
    } else {
        route_before
    })
    &&& exists|rects: Seq<LayerRect>| #[trigger]
        window.render.rects_are(rects, resolve) && sink_after
            == (crate::event_sink::SinkState {
            rects: sink_before.rects.insert(window.id, rects),
            ..sink_before
        })
}

impl WindowBackend {
    /// Moves every layer to its place, and publishes the places. `calc` places a
    /// surface of a given size in a window of a given size by a layout, and
    /// `resolve` turns a length into pixels.
    pub fn invalidate_layout<
        C: Fn(OverlayLayout, (u32, u32), (u32, u32)) -> (i32, i32),
        F: Fn(PercentLength, u32) -> i32,
    >(&mut self, calc: &C, resolve: &F, route: &mut LowLevelInput, sink: &mut OverlayEventSink)
        requires
            forall|layout: OverlayLayout, size: (u32, u32), window: (u32, u32)|
                call_requires(*calc, (layout, size, window)),
            forall|length: PercentLength, whole: u32| call_requires(*resolve, (length, whole)),
        ensures
            old(self)@.laid_out(final(self)@, *calc, *resolve),
            old(self)@.render.wf() ==> final(self)@.render.wf(),
            published(
                final(self)@,
                *resolve,
                *old(route),
                *final(route),
                old(sink)@,
                final(sink)@,
            ),
    {
        let window_size = self.render.window_size;
        let surface_size: (u32, u32) = match self.render.surface.get() {
            Some(surface) => surface.size,
            None => (0, 0),
        };
        let position: (i32, i32) = match self.render.layer0_pos_pct {
            Some(place) => resolve_place(resolve, place, window_size),
            None => calc(self.layout, surface_size, window_size),
        };
        self.render.position = position;
        let keys = crate::backend::render::layer_keys(&self.render.layers);
        let mut i: usize = 0;
        while i < keys.len()
            invariant
                i <= keys@.len(),
                crate::backend::render::lists(keys@, old(self).render.layers@),
                window_size == old(self).render.window_size,
                forall|length: PercentLength, whole: u32| call_requires(*resolve, (length, whole)),
                self@ == (WindowState {
                    render: crate::backend::render::RenderState {
                        position,
                        layers: self.render.layers@,
                        ..old(self)@.render
                    },
                    ..old(self)@
                }),
                self.render.layers@.dom() =~= old(self).render.layers@.dom(),
                forall|j: int|
                    0 <= j < i ==> layer_placed(
                        old(self).render.layers@[keys@[j]],
                        #[trigger] self.render.layers@[keys@[j]],
                        window_size,
                        *resolve,
                    ),
                forall|j: int|
                    i <= j < keys@.len() ==> #[trigger] self.render.layers@[keys@[j]] == old(
                        self,
                    ).render.layers@[keys@[j]],
            decreases keys@.len() - i,
        {
            let key: u32 = keys[i];
            assert(keys@.contains(key));
            assert(self.render.layers@[keys@[i as int]] == old(self).render.layers@[key]);
            if let Some(found) = self.render.layers.get(&key) {
                let mut layer = *found;
                if let Some(place) = layer.pos_pct {
                    layer.position = resolve_place(resolve, place, window_size);
                    self.render.layers.insert(key, layer);
                }
            }
            i += 1;
        }
        proof {
            assert forall|key: u32| #[trigger]
                old(self)@.render.layers.contains_key(key) implies layer_placed(
                old(self)@.render.layers[key],
                self@.render.layers[key],
                window_size,
                *resolve,
            ) by {
                assert(keys@.contains(key));
                let j = keys@.index_of(key);
                assert(layer_placed(
                    old(self).render.layers@[keys@[j]],
                    self.render.layers@[keys@[j]],
                    window_size,
                    *resolve,
                ));
            }
        }
        let rects = self.render.layer_rects(resolve);
        update_route_position(route, position);
        let ghost listed = rects@;
        sink.set_layer_rects(self.id, rects);
        self.proc.position = position;
        assert(self@.render.rects_are(listed, *resolve));
    }

    /// Replaces the surface of a layer, and lays the window out again. Where the
    /// surface cannot be opened, the layer is left without one.
    pub fn update_layer<
        E,
        C: Fn(OverlayLayout, (u32, u32), (u32, u32)) -> (i32, i32),
        F: Fn(PercentLength, u32) -> i32,
    >(
        &mut self,
        layer: u32,
        handle: Option<SharedHandle>,
        open: impl FnOnce(SharedHandle) -> Result<OverlaySurface, E>,
        calc: &C,
        resolve: &F,
        route: &mut LowLevelInput,
        sink: &mut OverlayEventSink,
    ) -> (done: Result<(), E>)
        requires
            handle matches Some(handle) ==> call_requires(open, (handle,)),
            forall|layout: OverlayLayout, size: (u32, u32), window: (u32, u32)|
                call_requires(*calc, (layout, size, window)),
            forall|length: PercentLength, whole: u32| call_requires(*resolve, (length, whole)),
        ensures
            old(self)@.render.wf() ==> final(self)@.render.wf(),
            exists|surface: crate::backend::render::SurfaceState|
                {
                    let changed = WindowState {
                        render: #[trigger] old(self)@.render.with_surface(
                            layer,
                            surface,
                            handle is None,
                        ),
                        ..old(self)@
                    };
                    &&& crate::backend::render::surface_update(handle, open, surface, done)
                    &&& match done {
                        Ok(()) => changed.laid_out(final(self)@, *calc, *resolve) && published(
                            final(self)@,
                            *resolve,
                            *old(route),
                            *final(route),
                            old(sink)@,
                            final(sink)@,
                        ),
                        Err(_) => final(self)@ == changed && *final(route) == *old(route)
                            && *final(sink) == *old(sink),
                    }
                },
    {
        match self.render.update_layer(layer, handle, open) {
            Ok(()) => {
                self.invalidate_layout(calc, resolve, route, sink);
                Ok(())
            },
            Err(error) => Err(error),
        }
    }

    /// Replaces the surface of layer 0, and lays the window out again.
    pub fn update_surface<
        E,
        C: Fn(OverlayLayout, (u32, u32), (u32, u32)) -> (i32, i32),
        F: Fn(PercentLength, u32) -> i32,
    >(
        &mut self,
        handle: Option<SharedHandle>,
        open: impl FnOnce(SharedHandle) -> Result<OverlaySurface, E>,
        calc: &C,
        resolve: &F,
        route: &mut LowLevelInput,
        sink: &mut OverlayEventSink,
    ) -> (done: Result<(), E>)
        requires
            handle matches Some(handle) ==> call_requires(open, (handle,)),
            forall|layout: OverlayLayout, size: (u32, u32), window: (u32, u32)|
                call_requires(*calc, (layout, size, window)),
            forall|length: PercentLength, whole: u32| call_requires(*resolve, (length, whole)),
        ensures
            old(self)@.render.wf() ==> final(self)@.render.wf(),
            exists|surface: crate::backend::render::SurfaceState|
                {
                    let changed = WindowState {
                        render: #[trigger] old(self)@.render.with_surface(
                            0,
                            surface,
                            handle is None,
                        ),
                        ..old(self)@
                    };
                    &&& crate::backend::render::surface_update(handle, open, surface, done)
                    &&& match done {
                        Ok(()) => changed.laid_out(final(self)@, *calc, *resolve) && published(
                            final(self)@,
                            *resolve,
                            *old(route),
                            *final(route),
                            old(sink)@,
                            final(sink)@,
                        ),
                        Err(_) => final(self)@ == changed && *final(route) == *old(route)
                            && *final(sink) == *old(sink),
                    }
                },
    {
        self.update_layer(0, handle, open, calc, resolve, route, sink)
    }

    /// Asks for a place of a layer, and lays the window out again.
    pub fn set_layer_position<
        C: Fn(OverlayLayout, (u32, u32), (u32, u32)) -> (i32, i32),
        F: Fn(PercentLength, u32) -> i32,
    >(
        &mut self,
        layer: u32,
        x: PercentLength,
        y: PercentLength,
        calc: &C,
        resolve: &F,
        route: &mut LowLevelInput,
        sink: &mut OverlayEventSink,
    )
        requires
            forall|layout: OverlayLayout, size: (u32, u32), window: (u32, u32)|
                call_requires(*calc, (layout, size, window)),
            forall|length: PercentLength, whole: u32| call_requires(*resolve, (length, whole)),
        ensures
            old(self)@.render.wf() ==> final(self)@.render.wf(),
            (WindowState {
                render: old(self)@.render.with_place(layer, (x, y)),
                ..old(self)@
            }).laid_out(final(self)@, *calc, *resolve),
            published(
                final(self)@,
                *resolve,
                *old(route),
                *final(route),
                old(sink)@,
                final(sink)@,
            ),
    {
        self.render.set_layer_position_pct(layer, x, y);
        self.invalidate_layout(calc, resolve, route, sink);
    }

    /// Sets where a layer takes input, and lays the window out again.
    pub fn set_layer_input_rect<
        C: Fn(OverlayLayout, (u32, u32), (u32, u32)) -> (i32, i32),
        F: Fn(PercentLength, u32) -> i32,
    >(
        &mut self,
        layer: u32,
        rect: Option<LayerInputRect>,
        calc: &C,
        resolve: &F,
        route: &mut LowLevelInput,
        sink: &mut OverlayEventSink,
    )
        requires
            forall|layout: OverlayLayout, size: (u32, u32), window: (u32, u32)|
                call_requires(*calc, (layout, size, window)),
            forall|length: PercentLength, whole: u32| call_requires(*resolve, (length, whole)),
        ensures
            old(self)@.render.wf() ==> final(self)@.render.wf(),
            (WindowState {
                render: old(self)@.render.with_input_rect(layer, rect),
                ..old(self)@
            }).laid_out(final(self)@, *calc, *resolve),
            published(
                final(self)@,
                *resolve,
                *old(route),
                *final(route),
                old(sink)@,
                final(sink)@,
            ),
    {
        self.render.set_layer_input_rect(layer, rect);
        self.invalidate_layout(calc, resolve, route, sink);
    }

    /// Sets the layout of layer 0, and lays the window out again.
    pub fn update_layout<
        C: Fn(OverlayLayout, (u32, u32), (u32, u32)) -> (i32, i32),
        F: Fn(PercentLength, u32) -> i32,
    >(
        &mut self,
        layout: OverlayLayout,
        calc: &C,
        resolve: &F,
        route: &mut LowLevelInput,
        sink: &mut OverlayEventSink,
    )
        requires
            forall|layout: OverlayLayout, size: (u32, u32), window: (u32, u32)|
                call_requires(*calc, (layout, size, window)),
            forall|length: PercentLength, whole: u32| call_requires(*resolve, (length, whole)),
        ensures
            old(self)@.render.wf() ==> final(self)@.render.wf(),
            (WindowState { layout, ..old(self)@ }).laid_out(final(self)@, *calc, *resolve),
            published(
                final(self)@,
                *resolve,
                *old(route),
                *final(route),
                old(sink)@,
                final(sink)@,
            ),
    {
        self.layout = layout;
        self.invalidate_layout(calc, resolve, route, sink);
    }
}

/// The windows that the overlay is drawn in.
pub struct Backends {
    map: BackendMap,
}

impl View for Backends {
    type V = Map<u32, WindowBackend>;

    closed spec fn view(&self) -> Map<u32, WindowBackend> {
        crate::int_map::backends(self.map)
    }
}

/// Whether every window is kept under its own id.
pub open spec fn keyed(windows: Map<u32, WindowBackend>) -> bool {
    forall|id: u32| #[trigger] windows.contains_key(id) ==> windows[id].id == id
}

/// Whether layer 0 stands apart from the other layers in every window.
pub open spec fn layered(windows: Map<u32, WindowBackend>) -> bool {
    forall|id: u32| #[trigger] windows.contains_key(id) ==> windows[id]@.render.wf()
}

/// Whether any of the windows has its input blocked.
pub open spec fn any_blocked(windows: Map<u32, WindowBackend>) -> bool {
    exists|id: u32| #[trigger]
        windows.contains_key(id) && windows[id].proc.blocking_state is Some
}

/// What a window keeps while its input is blocked.
pub open spec fn blocking_at(windows: Map<u32, WindowBackend>, id: u32) -> Option<InputBlockData> {
    if windows.contains_key(id) {
        windows[id].proc.blocking_state
    } else {
        None
    }
}

/// The windows with other data kept by one whose input is blocked.
pub open spec fn with_blocking(
    windows: Map<u32, WindowBackend>,
    id: u32,
    data: InputBlockData,
) -> Map<u32, WindowBackend> {
    windows.insert(
        id,
        WindowBackend {
            proc: WindowProcData { blocking_state: Some(data), ..windows[id].proc },
            ..windows[id]
        },
    )
}

impl Backends {
    /// No windows.
    pub fn new() -> (backends: Backends)
        ensures
            backends@ == Map::<u32, WindowBackend>::empty(),
    {
        Backends { map: backend_map() }
    }

    /// The ids of the windows, each once, in no particular order.
    pub fn iter(&self) -> (ids: Vec<u32>)
        ensures
            ids@.no_duplicates(),
            ids@.to_set() == self@.dom(),
    {
        backend_ids(&self.map)
    }

    /// One of the windows whose input is blocked, if there is any.
    pub fn first_blocked(&self) -> (found: Option<u32>)
        ensures
            found is Some <==> any_blocked(self@),
            found matches Some(id) ==> blocking_at(self@, id) is Some,
    {
        let ids = self.iter();
        let mut i: usize = 0;
        while i < ids.len()
            invariant
                i <= ids@.len(),
                ids@.to_set() == self@.dom(),
                forall|j: int|
                    0 <= j < i ==> self@[#[trigger] ids@[j]].proc.blocking_state is None,
            decreases ids@.len() - i,
        {
            let id: u32 = ids[i];
            assert(ids@.to_set().contains(id)) by {
                assert(ids@.contains(id));
            }
            if self.blocking_data(id).is_some() {
                assert(self@.contains_key(id));
                return Some(id);
            }
            i += 1;
        }
        proof {
            assert forall|id: u32| self@.contains_key(id) implies self@[id].proc.blocking_state
                is None by {
                assert(ids@.to_set().contains(id));
                let j = ids@.index_of(id);
                assert(self@[ids@[j]].proc.blocking_state is None);
            }
        }
        None
    }

    /// Whether any window has its input blocked.
    pub fn any_blocking(&self) -> (blocking: bool)
        ensures
            blocking == any_blocked(self@),
    {
        self.first_blocked().is_some()
    }

    /// Whether a window has its input blocked, if it is known.
    pub fn blocking(&self, id: u32) -> (blocking: Option<bool>)
        ensures
            blocking == (if self@.contains_key(id) {
                Some(self@[id].proc.blocking_state is Some)
            } else {
                None
            }),
    {
        match backend_blocking(&self.map, id) {
            Some(data) => Some(data.is_some()),
            None => None,
        }
    }

    /// What a window keeps while its input is blocked.
    pub fn blocking_data(&self, id: u32) -> (data: Option<InputBlockData>)
        ensures
            data == blocking_at(self@, id),
    {
        match backend_blocking(&self.map, id) {
            Some(data) => data,
            None => None,
        }
    }

    /// Changes what a known window keeps while its input is blocked.
    pub fn set_blocking_data(&mut self, id: u32, data: InputBlockData)
        requires
            old(self)@.contains_key(id),
        ensures
            final(self)@ == with_blocking(old(self)@, id, data),
    {
        if let Some(backend) = backend_remove(&mut self.map, id) {
            let mut changed = backend;
            changed.proc.blocking_state = Some(data);
            let _gone = backend_insert(&mut self.map, id, changed);
            assert(self@ =~= with_blocking(old(self)@, id, data));
        }
    }

    /// Runs `f` on a window, if it is known, and keeps what `f` makes of it.
    pub fn with_backend<R>(
        &mut self,
        id: u32,
        f: impl FnOnce(WindowBackend) -> (WindowBackend, R),
    ) -> (done: Option<R>)
        requires
            old(self)@.contains_key(id) ==> call_requires(f, (old(self)@[id],)),
            old(self)@.contains_key(id) ==> forall|made: (WindowBackend, R)| #[trigger]
                call_ensures(f, (old(self)@[id],), made) ==> made.0.id == old(self)@[id].id,
        ensures
            keyed(old(self)@) ==> keyed(final(self)@),
            layered(old(self)@) && (old(self)@.contains_key(id) ==> forall|
                made: (WindowBackend, R),
            | #[trigger]
                call_ensures(f, (old(self)@[id],), made) && old(self)@[id]@.render.wf()
                    ==> made.0@.render.wf()) ==> layered(final(self)@),
            if old(self)@.contains_key(id) {
                exists|made: (WindowBackend, R)| #[trigger]
                    call_ensures(f, (old(self)@[id],), made) && done == Some(made.1)
                        && final(self)@ == old(self)@.insert(id, made.0)
            } else {
                done is None && final(self)@ == old(self)@
            },
    {
        match backend_remove(&mut self.map, id) {
            Some(backend) => {
                let ghost before = backend;
                let made = f(backend);
                assert(call_ensures(f, (before,), made));
                let _gone = backend_insert(&mut self.map, id, made.0);
                assert(self@ =~= old(self)@.insert(id, made.0));
                Some(made.1)
            },
            None => {
                assert(self@ =~= old(self)@);
                None
            },
        }
    }

    /// Runs `f` on a window. A window that is not known is taken in first:
    /// `init` prepares it, and tells its adapter and its size; clients are told.
    pub fn with_or_init_backend<R, E>(
        &mut self,
        sink: &mut OverlayEventSink,
        id: u32,
        init: impl FnOnce() -> Result<(GpuLuid, (u32, u32)), E>,
        f: impl FnOnce(WindowBackend) -> (WindowBackend, R),
    ) -> (done: Result<(R, Vec<Delivery>), E>)
        requires
            old(self)@.contains_key(id) ==> call_requires(f, (old(self)@[id],)),
            !old(self)@.contains_key(id) ==> call_requires(init, ()),
            !old(self)@.contains_key(id) ==> forall|
                gpu_id: GpuLuid,
                size: (u32, u32),
                fresh: WindowBackend,
            | #[trigger]
                fresh.fresh(id, gpu_id, size) && call_ensures(
                    init,
                    (),
                    Ok::<(GpuLuid, (u32, u32)), E>((gpu_id, size)),
                ) ==> call_requires(f, (fresh,)),
            forall|backend: WindowBackend, made: (WindowBackend, R)| #[trigger]
                call_ensures(f, (backend,), made) ==> made.0.id == backend.id,
        ensures
            keyed(old(self)@) ==> keyed(final(self)@),
            layered(old(self)@) && (forall|backend: WindowBackend, made: (WindowBackend, R)|
                #[trigger]
                call_ensures(f, (backend,), made) && backend@.render.wf() ==> made.0@.render.wf())
                ==> layered(final(self)@),
            final(sink)@ == old(sink)@,
            if old(self)@.contains_key(id) {
                exists|made: (WindowBackend, R)| #[trigger]
                    call_ensures(f, (old(self)@[id],), made) && final(self)@ == old(self)@.insert(
                        id,
                        made.0,
                    ) && (done matches Ok((r, told)) && r == made.1 && told@.len() == 0)
            } else {
                exists|found: Result<(GpuLuid, (u32, u32)), E>| #[trigger]
                    call_ensures(init, (), found) && match found {
                        Err(error) => done == Err::<(R, Vec<Delivery>), E>(error) && final(self)@
                            == old(self)@,
                        Ok((gpu_id, size)) => exists|fresh: WindowBackend, made: (WindowBackend, R)|
                            #![trigger call_ensures(f, (fresh,), made)]
                            {
                                &&& fresh.fresh(id, gpu_id, size)
                                &&& call_ensures(f, (fresh,), made)
                                &&& final(self)@ == old(self)@.insert(id, made.0)
                                &&& done matches Ok((r, told))
                                &&& r == made.1
                                &&& told@ == old(sink)@.broadcast(
                                    OverlayEvent::Window {
                                        id,
                                        event: WindowEvent::Added {
                                            width: size.0,
                                            height: size.1,
                                            gpu_id,
                                        },
                                    },
                                )
                            },
                    }
            },
    {
        let known = backend_remove(&mut self.map, id);
        if let Some(backend) = known {
            let ghost before = backend;
            let made = f(backend);
            assert(call_ensures(f, (before,), made));
            let _gone = backend_insert(&mut self.map, id, made.0);
            assert(self@ =~= old(self)@.insert(id, made.0));
            let told: Vec<Delivery> = Vec::new();
            return Ok((made.1, told));
        }
        assert(self@ =~= old(self)@);
        let found = init();
        assert(call_ensures(init, (), found));
        match found {
            Err(error) => Err(error),
            Ok((gpu_id, size)) => {
                let told = sink.emit(
                    OverlayEvent::Window {
                        id,
                        event: WindowEvent::Added { width: size.0, height: size.1, gpu_id },
                    },
                );
                let fresh = WindowBackend::new(id, gpu_id, size);
                let ghost before = fresh;
                let made = f(fresh);
                assert(call_ensures(f, (before,), made));
                let _gone = backend_insert(&mut self.map, id, made.0);
                assert(self@ =~= old(self)@.insert(id, made.0));
                Ok((made.1, told))
            },
        }
    }

    /// Takes a window out, to work on it.
    pub fn take(&mut self, id: u32) -> (taken: Option<WindowBackend>)
        ensures
            taken == old(self)@.get(id),
            final(self)@ == old(self)@.remove(id),
    {
        backend_remove(&mut self.map, id)
    }

    /// Puts a window in.
    pub fn put(&mut self, id: u32, backend: WindowBackend)
        ensures
            final(self)@ == old(self)@.insert(id, backend),
    {
        let _gone = backend_insert(&mut self.map, id, backend);
    }

    /// Forgets a window, and tells clients that it is gone.
    pub fn remove_backend(&mut self, sink: &mut OverlayEventSink, id: u32) -> (told: Vec<Delivery>)
        ensures
            layered(old(self)@) ==> layered(final(self)@),
            final(self)@ == old(self)@.remove(id),
            final(sink)@ == old(sink)@,
            told@ == old(sink)@.broadcast(
                OverlayEvent::Window { id, event: WindowEvent::Destroyed },
            ),
    {
        let _gone = backend_remove(&mut self.map, id);
        sink.emit(OverlayEvent::Window { id, event: WindowEvent::Destroyed })
    }

    /// Takes back, in every window, what clients set.
    pub fn cleanup_backends(&mut self)
        ensures
            layered(final(self)@),
            final(self)@.dom() == old(self)@.dom(),
            forall|id: u32| #[trigger]
                old(self)@.contains_key(id) ==> final(self)@[id].was_reset(old(self)@[id]),
    {
        let ids = self.iter();
        let mut i: usize = 0;
        while i < ids.len()
            invariant
                i <= ids@.len(),
                ids@.no_duplicates(),
                ids@.to_set() == old(self)@.dom(),
                self@.dom() =~= old(self)@.dom(),
                forall|j: int|
                    0 <= j < i ==> (#[trigger] self@[ids@[j]]).was_reset(old(self)@[ids@[j]]),
                forall|j: int|
                    i <= j < ids@.len() ==> #[trigger] self@[ids@[j]] == old(self)@[ids@[j]],
            decreases ids@.len() - i,
        {
            let id: u32 = ids[i];
            assert(ids@.to_set().contains(id)) by {
                assert(ids@.contains(id));
            }
            assert(self@[ids@[i as int]] == old(self)@[id]);
            if let Some(mut backend) = backend_remove(&mut self.map, id) {
                backend.reset();
                let _gone = backend_insert(&mut self.map, id, backend);
            }
            i += 1;
        }
        proof {
            assert forall|id: u32| #[trigger] old(self)@.contains_key(id) implies self@[id].was_reset(
                old(self)@[id],
            ) by {
                assert(ids@.to_set().contains(id));
                let j = ids@.index_of(id);
                assert(self@[ids@[j]].was_reset(old(self)@[ids@[j]]));
            }
        }
    }
}

/// Blocking and then unblocking a window leaves its state, and the count of
/// blocking windows, as they were; the route to it is gone.
pub proof fn law_unblocking_undoes_blocking(
    window: WindowBackend,
    data: InputBlockData,
    route: LowLevelInput,
    position: (i32, i32),
)
    requires
        window.proc.blocking_state is None,
    ensures
        window.blocked(data).unblocked() == window,
        window.route_left(window.route_entered(route, position)) == (LowLevelInput {
            route_hwnd: 0,
            route_position: position,
            ..route
        }),
{
}

/// Blocking starts only where input is not blocked yet, with the cursor that was set
/// and where the surface starts then. From then on the window keeps what is to be put
/// back, input comes to it, seen from there, and the hooks go in with the first window
/// that blocks.
pub proof fn law_blocking_starts_once(
    window: &mut WindowBackend,
    data: InputBlockData,
    route: &mut LowLevelInput,
    start: Option<BlockStart>,
    again: Option<BlockStart>,
    install: bool,
)
    requires
        call_ensures(WindowBackend::begin_block, (&*window,), start),
        start is Some,
        call_ensures(WindowBackend::finish_block, (window, start->0, data, route), install),
        call_ensures(WindowBackend::begin_block, (&*final(window),), again),
        route.blocking_sessions < usize::MAX,
    ensures
        old(window).proc.blocking_state is None,
        (start->0).cursor == old(window).proc.blocking_cursor,
        (start->0).position == old(window).proc.position,
        final(window).proc.blocking_state == Some(data),
        final(window).proc.listen_input == old(window).proc.listen_input,
        final(window).proc.position == old(window).proc.position,
        final(window).render == old(window).render,
        final(window).layout == old(window).layout,
        final(window).id == old(window).id,
        again is None,
        final(route).route_hwnd == old(window).id,
        final(route).route_position == old(window).proc.position,
        final(route).blocking_sessions == old(route).blocking_sessions + 1,
        install == (old(route).blocking_sessions == 0),
        final(route).mouse_hook == old(route).mouse_hook,
        final(route).keyboard_hook == old(route).keyboard_hook,
{
}

/// A window whose input is not blocked can be blocked.
pub proof fn law_unblocked_window_can_be_blocked(
    window: WindowBackend,
    start: Option<BlockStart>,
)
    requires
        call_ensures(WindowBackend::begin_block, (&window,), start),
    ensures
        start is Some <==> window.proc.blocking_state is None,
{
}

/// Blocking ends with what was kept to put back, once: the window keeps it no longer,
/// input is no longer routed to it, the hooks go out with the last window that blocks,
/// the mouse is let go if this window has captured it, and every client hears once
/// that blocking of this window ended.
pub proof fn law_blocking_ends_once(
    window: &mut WindowBackend,
    captured: u32,
    route: &mut LowLevelInput,
    sink: &mut OverlayEventSink,
    ended: Option<(BlockEnd, Vec<Delivery>)>,
    i: int,
)
    requires
        call_ensures(WindowBackend::end_block, (window, captured, route, sink), ended),
        route.blocking_sessions > 0,
    ensures
        ended is Some <==> old(window).proc.blocking_state is Some,
        final(window).proc.blocking_state is None,
        final(sink)@ == old(sink)@,
        ended is None ==> *final(window) == *old(window) && *final(route) == *old(route),
        ended matches Some((end, told)) ==> {
            &&& Some(end.data) == old(window).proc.blocking_state
            &&& end.release_capture == (captured == old(window).id)
            &&& end.remove_hooks == (old(route).blocking_sessions == 1)
            &&& final(route).blocking_sessions == old(route).blocking_sessions - 1
            &&& final(route).route_hwnd == (if old(route).route_hwnd == old(window).id {
                0
            } else {
                old(route).route_hwnd
            })
            &&& told@.len() == old(sink)@.sinks.len()
            &&& 0 <= i < told@.len() ==> told@[i].client == old(sink)@.sinks[i] && told@[i].event
                == (OverlayEvent::Window {
                id: old(window).id,
                event: WindowEvent::InputBlockingEnded,
            })
            &&& final(window).proc.listen_input == old(window).proc.listen_input
            &&& final(window).render == old(window).render
            &&& final(window).id == old(window).id
        },
{
}

/// The clip of the cursor is put back later unless it was the whole screen.
pub proof fn law_clip_is_kept_unless_it_is_the_screen(
    clip: Rect,
    width: i32,
    height: i32,
    saved: Option<Rect>,
)
    requires
        call_ensures(saved_clip, (clip, width, height), saved),
    ensures
        saved is None <==> clip.left == 0 && clip.top == 0 && clip.right == width && clip.bottom
            == height,
        saved is Some ==> saved->0 == clip,
{
}

/// Work for the thread of a window comes out once, in the order in which it came:
/// blocking as blocking, unblocking as unblocking.
pub proof fn law_tasks_come_out_in_order(
    window: &mut WindowBackend,
    next: &mut WindowBackend,
    out: &mut WindowBackend,
    rest: &mut WindowBackend,
    first: bool,
    second: bool,
    tasks: VecDeque<GuiTask>,
    none: VecDeque<GuiTask>,
)
    requires
        window.proc_queue@.len() == 0,
        call_ensures(WindowBackend::block_input, (window, first), ()),
        *next == *final(window),
        call_ensures(WindowBackend::block_input, (next, second), ()),
        *out == *final(next),
        call_ensures(WindowBackend::take_tasks, (out,), tasks),
        *rest == *final(out),
        call_ensures(WindowBackend::take_tasks, (rest,), none),
    ensures
        tasks@.len() == 2,
        tasks@[0] is Block == first,
        tasks@[1] is Block == second,
        tasks@[0] is Unblock == !first,
        tasks@[1] is Unblock == !second,
        none@.len() == 0,
        final(rest).proc == old(window).proc,
        final(rest).render == old(window).render,
        final(rest).layout == old(window).layout,
        final(rest).id == old(window).id,
{
}

/// A window that was just found has its id, its adapter and its size, and nothing of
/// any client.
pub proof fn law_found_window_is_untouched(
    id: u32,
    gpu_id: GpuLuid,
    size: (u32, u32),
    window: WindowBackend,
    gpu: GpuLuid,
)
    requires
        call_ensures(WindowBackend::new, (id, gpu_id, size), window),
        call_ensures(WindowBackend::gpu_luid, (&window,), gpu),
    ensures
        window.id == id,
        gpu == gpu_id,
        window.render.window_size == size,
        window.render.surface.inner is None,
        window.render.surface.updated,
        window.render.position == (0i32, 0i32),
        window.proc.position == (0i32, 0i32),
        window.proc.blocking_state is None,
        !window.proc.listen_input.cursor && !window.proc.listen_input.keyboard,
        window.proc_queue@.len() == 0,
        window.layout.position == (PercentLength::Length(0), PercentLength::Length(0)),
        window.layout.anchor == (PercentLength::Length(0), PercentLength::Length(0)),
        forall|layer: u32| !(#[trigger] window.render.layers@.contains_key(layer)),
{
    assert(window.render@.layers =~= Map::<u32, crate::backend::render::LayerState>::empty());
}

/// The overlay is interactive while a window that is known has its input blocked; such
/// a window is found, and what it keeps is told of it and of no other.
pub proof fn law_blocked_windows_are_found(
    backends: Backends,
    id: u32,
    found: Option<u32>,
    any: bool,
    blocking: Option<bool>,
    data: Option<InputBlockData>,
)
    requires
        call_ensures(Backends::first_blocked, (&backends,), found),
        call_ensures(Backends::any_blocking, (&backends,), any),
        call_ensures(Backends::blocking, (&backends, id), blocking),
        call_ensures(Backends::blocking_data, (&backends, id), data),
    ensures
        any <==> exists|id: u32| #[trigger]
            backends@.contains_key(id) && backends@[id].proc.blocking_state is Some,
        found is Some <==> any,
        found matches Some(blocked) ==> backends@.contains_key(blocked)
            && backends@[blocked].proc.blocking_state is Some,
        blocking is Some <==> backends@.contains_key(id),
        blocking is Some ==> blocking->0 == (backends@[id].proc.blocking_state is Some),
        !backends@.contains_key(id) ==> data is None,
        backends@.contains_key(id) ==> data == backends@[id].proc.blocking_state,
{
}

/// Changing what one window keeps changes only that.
pub proof fn law_kept_data_belongs_to_one_window(
    backends: &mut Backends,
    id: u32,
    other: u32,
    data: InputBlockData,
)
    requires
        backends@.contains_key(id),
        call_ensures(Backends::set_blocking_data, (backends, id, data), ()),
        other != id,
    ensures
        final(backends)@.contains_key(id),
        final(backends)@[id].proc.blocking_state == Some(data),
        final(backends)@[id].proc.listen_input == old(backends)@[id].proc.listen_input,
        final(backends)@[id].proc.position == old(backends)@[id].proc.position,
        final(backends)@[id].render == old(backends)@[id].render,
        final(backends)@[id].id == old(backends)@[id].id,
        final(backends)@.contains_key(other) == old(backends)@.contains_key(other),
        old(backends)@.contains_key(other) ==> final(backends)@[other] == old(backends)@[other],
{
}

/// A window that is forgotten is gone, alone, and every client hears once that this
/// window was destroyed.
pub proof fn law_forgotten_window_is_told(
    backends: &mut Backends,
    sink: &mut OverlayEventSink,
    id: u32,
    other: u32,
    told: Vec<Delivery>,
    i: int,
)
    requires
        call_ensures(Backends::remove_backend, (backends, sink, id), told),
        other != id,
    ensures
        !final(backends)@.contains_key(id),
        final(backends)@.contains_key(other) == old(backends)@.contains_key(other),
        old(backends)@.contains_key(other) ==> final(backends)@[other] == old(backends)@[other],
        told@.len() == old(sink)@.sinks.len(),
        0 <= i < told@.len() ==> told@[i].client == old(sink)@.sinks[i] && told@[i].event
            == (OverlayEvent::Window { id, event: WindowEvent::Destroyed }),
        final(sink)@ == old(sink)@,
{
}

/// What is taken out can be put in again, and is then what it was.
pub proof fn law_taken_window_can_be_put_back(
    backends: &mut Backends,
    after: &mut Backends,
    id: u32,
    window: WindowBackend,
    ids: Vec<u32>,
    other: u32,
)
    requires
        call_ensures(Backends::take, (backends, id), Some(window)),
        *after == *final(backends),
        call_ensures(Backends::put, (after, id, window), ()),
        call_ensures(Backends::iter, (&*final(after),), ids),
    ensures
        old(backends)@.contains_key(id) && old(backends)@[id] == window,
        !final(backends)@.contains_key(id),
        final(after)@.contains_key(other) == old(backends)@.contains_key(other),
        old(backends)@.contains_key(other) ==> final(after)@[other] == old(backends)@[other],
        ids@.contains(other) == old(backends)@.contains_key(other),
        forall|i: int, j: int| 0 <= i < j < ids@.len() ==> ids@[i] != ids@[j],
{
    assert(ids@.contains(other) == ids@.to_set().contains(other));
}

/// Work on a known window is kept, and tells nobody; other windows stay. Work on a
/// window that is not known is not done.
pub proof fn law_work_on_a_window_is_kept<
    R,
    F: FnOnce(WindowBackend) -> (WindowBackend, R),
>(backends: &mut Backends, id: u32, f: F, done: Option<R>, other: u32)
    requires
        call_ensures(Backends::with_backend, (backends, id, f), done),
        other != id,
    ensures
        done is Some <==> old(backends)@.contains_key(id),
        done is Some ==> final(backends)@.contains_key(id) && call_ensures(
            f,
            (old(backends)@[id],),
            (final(backends)@[id], done->0),
        ),
        done is None ==> final(backends)@ == old(backends)@,
        final(backends)@.contains_key(other) == old(backends)@.contains_key(other),
        old(backends)@.contains_key(other) ==> final(backends)@[other] == old(backends)@[other],
{
}

/// A window that is not known is taken in when it is worked on: with the adapter and
/// size that were found for it, which every client hears of once. Where that fails,
/// nothing changes. A window that is known is not told of again.
pub proof fn law_new_window_is_told<
    R,
    E,
    I: FnOnce() -> Result<(GpuLuid, (u32, u32)), E>,
    F: FnOnce(WindowBackend) -> (WindowBackend, R),
>(
    backends: &mut Backends,
    sink: &mut OverlayEventSink,
    id: u32,
    init: I,
    f: F,
    done: Result<(R, Vec<Delivery>), E>,
    i: int,
    other: u32,
)
    requires
        call_ensures(Backends::with_or_init_backend, (backends, sink, id, init, f), done),
        other != id,
    ensures
        final(sink)@ == old(sink)@,
        done is Err ==> !old(backends)@.contains_key(id) && final(backends)@ == old(backends)@
            && call_ensures(init, (), Err::<(GpuLuid, (u32, u32)), E>(done->Err_0)),
        old(backends)@.contains_key(id) ==> (done matches Ok((made, told)) && told@.len() == 0
            && call_ensures(f, (old(backends)@[id],), (final(backends)@[id], made))),
        done is Ok ==> final(backends)@.contains_key(id),
        !old(backends)@.contains_key(id) && done is Ok ==> exists|
            gpu_id: GpuLuid,
            size: (u32, u32),
            fresh: WindowBackend,
        |
            {
                &&& #[trigger] fresh.fresh(id, gpu_id, size)
                &&& call_ensures(init, (), Ok::<(GpuLuid, (u32, u32)), E>((gpu_id, size)))
                &&& fresh.id == id && fresh.gpu_id == gpu_id && fresh.render.window_size == size
                &&& call_ensures(f, (fresh,), (final(backends)@[id], (done->Ok_0).0))
                &&& (done->Ok_0).1@.len() == old(sink)@.sinks.len()
                &&& 0 <= i < old(sink)@.sinks.len() ==> (done->Ok_0).1@[i].client == old(
                    sink,
                )@.sinks[i] && (done->Ok_0).1@[i].event == (OverlayEvent::Window {
                    id,
                    event: WindowEvent::Added { width: size.0, height: size.1, gpu_id },
                })
            },
        final(backends)@.contains_key(other) == old(backends)@.contains_key(other),
        old(backends)@.contains_key(other) ==> final(backends)@[other] == old(backends)@[other],
{
    if !old(backends)@.contains_key(id) && done is Ok {
        let found = choose|found: Result<(GpuLuid, (u32, u32)), E>| #[trigger]
            call_ensures(init, (), found) && match found {
                Err(error) => done == Err::<(R, Vec<Delivery>), E>(error) && final(backends)@
                    == old(backends)@,
                Ok((gpu_id, size)) => exists|fresh: WindowBackend, made: (WindowBackend, R)|
                    #![trigger call_ensures(f, (fresh,), made)]
                    {
                        &&& fresh.fresh(id, gpu_id, size)
                        &&& call_ensures(f, (fresh,), made)
                        &&& final(backends)@ == old(backends)@.insert(id, made.0)
                        &&& done matches Ok((r, told))
                        &&& r == made.1
                        &&& told@ == old(sink)@.broadcast(
                            OverlayEvent::Window {
                                id,
                                event: WindowEvent::Added {
                                    width: size.0,
                                    height: size.1,
                                    gpu_id,
                                },
                            },
                        )
                    },
            };
        let (gpu_id, size) = found->Ok_0;
        let (fresh, made): (WindowBackend, (WindowBackend, R)) = choose|
            fresh: WindowBackend,
            made: (WindowBackend, R),
        |
            #![trigger call_ensures(f, (fresh,), made)]
            {
                &&& fresh.fresh(id, gpu_id, size)
                &&& call_ensures(f, (fresh,), made)
                &&& final(backends)@ == old(backends)@.insert(id, made.0)
                &&& done matches Ok((r, told))
                &&& r == made.1
                &&& told@ == old(sink)@.broadcast(
                    OverlayEvent::Window {
                        id,
                        event: WindowEvent::Added { width: size.0, height: size.1, gpu_id },
                    },
                )
            };
        assert(fresh.fresh(id, gpu_id, size));
        assert(made == (final(backends)@[id], (done->Ok_0).0));
        assert(fresh.render@.window_size == fresh.render.window_size);
    }
}

/// Laying a window out moves layer 0 to the place that was asked for it, or else where
/// the layout puts a surface of its size, and every other layer to the place that was
/// asked for it, if any. The place of layer 0 is also where its window and the route
/// see input from. Nothing else of the layers changes.
pub proof fn law_layers_go_to_their_places<
    C: Fn(OverlayLayout, (u32, u32), (u32, u32)) -> (i32, i32),
    F: Fn(PercentLength, u32) -> i32,
>(
    window: &mut WindowBackend,
    calc: C,
    resolve: F,
    route: &mut LowLevelInput,
    sink: &mut OverlayEventSink,
    layer: u32,
)
    requires
        call_ensures(WindowBackend::invalidate_layout, (window, &calc, &resolve, route, sink), ()),
    ensures
        final(window).proc.position == final(window).render.position,
        old(route).route_hwnd != 0 ==> final(route).route_position == final(window).render.position,
        old(route).route_hwnd == 0 ==> *final(route) == *old(route),
        final(route).route_hwnd == old(route).route_hwnd,
        ({
            let size = old(window).render.window_size;
            let shown = match old(window).render.surface.inner {
                Some(surface) => surface.size,
                None => (0u32, 0u32),
            };
            &&& old(window).render.layer0_pos_pct is None ==> call_ensures(
                calc,
                (old(window).layout, shown, size),
                final(window).render.position,
            )
            &&& old(window).render.layer0_pos_pct matches Some((x, y)) ==> call_ensures(
                resolve,
                (x, size.0),
                final(window).render.position.0,
            ) && call_ensures(resolve, (y, size.1), final(window).render.position.1)
            &&& final(window).render.layers@.contains_key(layer) == old(
                window,
            ).render.layers@.contains_key(layer)
            &&& old(window).render.layers@.contains_key(layer) ==> {
                let was = old(window).render.layers@[layer];
                let is = final(window).render.layers@[layer];
                &&& is.surface == was.surface && is.pos_pct == was.pos_pct && is.input_rect
                    == was.input_rect
                &&& was.pos_pct is None ==> is.position == was.position
                &&& was.pos_pct matches Some((x, y)) ==> call_ensures(
                    resolve,
                    (x, size.0),
                    is.position.0,
                ) && call_ensures(resolve, (y, size.1), is.position.1)
            }
        }),
        final(window).render.surface == old(window).render.surface,
        final(window).layout == old(window).layout,
        final(window).proc.blocking_state == old(window).proc.blocking_state,
        final(window).proc.listen_input == old(window).proc.listen_input,
        final(sink)@.rects.contains_key(old(window).id),
        final(sink)@.layers == old(sink)@.layers,
        final(sink)@.sinks == old(sink)@.sinks,
{
    let was = old(window)@;
    let is = final(window)@;
    assert(was.laid_out(is, calc, resolve));
    assert(is.render.layers.dom() == was.render.layers.dom());
    assert(is.render.layers.contains_key(layer) == is.render.layers.dom().contains(layer));
}

/// What a client sets of a window is what is kept of it: what is listened to,
/// the cursor, and work for its thread, which comes last. Neither touches the
/// other, nor how the window is drawn.
pub proof fn law_window_settings_are_kept(
    heard: &mut WindowBackend,
    flags: ListenInputFlags,
    shown: &mut WindowBackend,
    cursor: BlockingCursor,
    queued: &mut WindowBackend,
    task: GuiTask,
    layout: OverlayLayout,
)
    requires
        call_ensures(WindowBackend::listen_input, (heard, flags), ()),
        *shown == *final(heard),
        call_ensures(WindowBackend::set_blocking_cursor, (shown, cursor), ()),
        *queued == *final(shown),
        call_ensures(WindowBackend::execute_gui, (queued, task), ()),
        call_ensures(WindowBackend::layout, (final(queued),), layout),
    ensures
        final(queued).proc.listen_input == flags,
        final(queued).proc.blocking_cursor == cursor,
        final(queued).proc_queue@.last() == task,
        final(queued).proc_queue@.len() == old(heard).proc_queue@.len() + 1,
        final(queued).proc_queue@.drop_last() == old(heard).proc_queue@,
        final(queued).proc.position == old(heard).proc.position,
        final(queued).proc.blocking_state == old(heard).proc.blocking_state,
        final(queued).proc.hotkey == old(heard).proc.hotkey,
        final(queued).render == old(heard).render,
        layout == old(heard).layout,
        final(queued).id == old(heard).id,
{
}

/// Taking back what clients set leaves a window with its id, its adapter and its
/// size, and with nothing of them: no surface, no layer, no place, nothing that
/// is listened to. Its thread is to stop blocking, after what it has to do.
pub proof fn law_reset_window_is_nobodys(window: &mut WindowBackend, layer: u32)
    requires
        call_ensures(WindowBackend::reset, (window,), ()),
    ensures
        final(window).id == old(window).id && final(window).gpu_id == old(window).gpu_id,
        final(window).render.window_size == old(window).render.window_size,
        final(window).render.renderer == old(window).render.renderer,
        final(window).render.surface.inner is None,
        !final(window).render.layers@.contains_key(layer),
        final(window).render.layer0_pos_pct is None && final(window).render.layer0_input_rect
            is None,
        final(window).render.position.0 == 0 && final(window).render.position.1 == 0,
        final(window).proc.position.0 == 0 && final(window).proc.position.1 == 0,
        !final(window).proc.listen_input.cursor && !final(window).proc.listen_input.keyboard,
        final(window).proc.blocking_state == old(window).proc.blocking_state,
        final(window).layout.position.0 == PercentLength::Length(0),
        final(window).proc_queue@.len() == old(window).proc_queue@.len() + 1,
        final(window).proc_queue@.last() is Unblock,
{
}

/// Every window is taken back, and none is forgotten.
pub proof fn law_every_window_is_taken_back(backends: &mut Backends, id: u32, layer: u32)
    requires
        call_ensures(Backends::cleanup_backends, (backends,), ()),
    ensures
        final(backends)@.contains_key(id) <==> old(backends)@.contains_key(id),
        old(backends)@.contains_key(id) ==> ({
            let window = final(backends)@[id];
            &&& window.id == old(backends)@[id].id
            &&& window.gpu_id == old(backends)@[id].gpu_id
            &&& window.render.window_size == old(backends)@[id].render.window_size
            &&& window.render.surface.inner is None
            &&& !window.render.layers@.contains_key(layer)
            &&& !window.proc.listen_input.cursor && !window.proc.listen_input.keyboard
            &&& window.proc_queue@.last() is Unblock
        }),
{
    assert(final(backends)@.dom().contains(id) == old(backends)@.dom().contains(id));
    if old(backends)@.contains_key(id) {
        assert(final(backends)@[id].was_reset(old(backends)@[id]));
    }
}

/// A new layout is the window's, and layer 0 goes where it puts a surface of its
/// size, unless a place was asked for it. Everything else of the window stays.
pub proof fn law_new_layout_moves_the_lowest_layer<
    C: Fn(OverlayLayout, (u32, u32), (u32, u32)) -> (i32, i32),
    F: Fn(PercentLength, u32) -> i32,
>(
    window: &mut WindowBackend,
    layout: OverlayLayout,
    calc: C,
    resolve: F,
    route: &mut LowLevelInput,
    sink: &mut OverlayEventSink,
)
    requires
        call_ensures(
            WindowBackend::update_layout,
            (window, layout, &calc, &resolve, route, sink),
            (),
        ),
    ensures
        final(window).layout == layout,
        old(window).render.layer0_pos_pct is None ==> call_ensures(
            calc,
            (
                layout,
                match old(window).render.surface.inner {
                    Some(surface) => surface.size,
                    None => (0u32, 0u32),
                },
                old(window).render.window_size,
            ),
            final(window).render.position,
        ),
        final(window).proc.position == final(window).render.position,
        final(window).render.surface == old(window).render.surface,
        final(window).render.layer0_pos_pct == old(window).render.layer0_pos_pct,
        final(window).render.window_size == old(window).render.window_size,
        final(window).proc.listen_input == old(window).proc.listen_input,
        final(sink)@.rects.contains_key(old(window).id),
        final(sink)@.layers == old(sink)@.layers,
{
    let was = WindowState { layout, ..old(window)@ };
    assert(was.laid_out(final(window)@, calc, resolve));
}

/// A place that is asked for a layer is kept for that layer, and the layer goes
/// there at once, each part by the side of the window that it is relative to.
/// Other layers are asked for nothing.
pub proof fn law_asked_place_is_taken<
    C: Fn(OverlayLayout, (u32, u32), (u32, u32)) -> (i32, i32),
    F: Fn(PercentLength, u32) -> i32,
>(
    window: &mut WindowBackend,
    layer: u32,
    x: PercentLength,
    y: PercentLength,
    calc: C,
    resolve: F,
    route: &mut LowLevelInput,
    sink: &mut OverlayEventSink,
    other: u32,
)
    requires
        call_ensures(
            WindowBackend::set_layer_position,
            (window, layer, x, y, &calc, &resolve, route, sink),
            (),
        ),
        other != layer && other != 0,
    ensures
        layer == 0 ==> final(window).render.layer0_pos_pct == Some((x, y)) && call_ensures(
            resolve,
            (x, old(window).render.window_size.0),
            final(window).render.position.0,
        ) && call_ensures(
            resolve,
            (y, old(window).render.window_size.1),
            final(window).render.position.1,
        ),
        layer != 0 ==> final(window).render.layers@.contains_key(layer) && final(window).render.layers@[layer].pos_pct == Some((x, y)) && call_ensures(
            resolve,
            (x, old(window).render.window_size.0),
            final(window).render.layers@[layer].position.0,
        ) && call_ensures(
            resolve,
            (y, old(window).render.window_size.1),
            final(window).render.layers@[layer].position.1,
        ) && final(window).render.layer0_pos_pct == old(window).render.layer0_pos_pct,
        final(window).render.layers@.contains_key(other) <==> old(window).render.layers@.contains_key(other),
        old(window).render.layers@.contains_key(other) ==> final(window).render.layers@[other].pos_pct == old(window).render.layers@[other].pos_pct && final(window).render.layers@[other].surface == old(window).render.layers@[other].surface,
        final(window).layout == old(window).layout,
        final(window).render.surface == old(window).render.surface,
        final(sink)@.rects.contains_key(old(window).id),
{
    let was = WindowState {
        render: old(window)@.render.with_place(layer, (x, y)),
        ..old(window)@
    };
    assert(was.laid_out(final(window)@, calc, resolve));
    assert(was.render.layers.contains_key(layer) == final(window)@.render.layers.dom().contains(
        layer,
    ));
    assert(was.render.layers.contains_key(other) == final(window)@.render.layers.dom().contains(
        other,
    ));
}

/// Where a layer takes input is kept for that layer alone, and neither its place
/// nor its surface changes by it.
pub proof fn law_asked_input_is_kept<
    C: Fn(OverlayLayout, (u32, u32), (u32, u32)) -> (i32, i32),
    F: Fn(PercentLength, u32) -> i32,
>(
    window: &mut WindowBackend,
    layer: u32,
    rect: Option<LayerInputRect>,
    calc: C,
    resolve: F,
    route: &mut LowLevelInput,
    sink: &mut OverlayEventSink,
    other: u32,
)
    requires
        call_ensures(
            WindowBackend::set_layer_input_rect,
            (window, layer, rect, &calc, &resolve, route, sink),
            (),
        ),
        other != layer && other != 0,
    ensures
        layer == 0 ==> final(window).render.layer0_input_rect == rect,
        layer != 0 ==> final(window).render.layers@.contains_key(layer) && final(window).render.layers@[layer].input_rect == rect && final(window).render.layer0_input_rect == old(window).render.layer0_input_rect,
        layer != 0 && old(window).render.layers@.contains_key(layer) ==> final(window).render.layers@[layer].surface == old(window).render.layers@[layer].surface && final(window).render.layers@[layer].pos_pct == old(window).render.layers@[layer].pos_pct,
        old(window).render.layers@.contains_key(other) ==> final(window).render.layers@.contains_key(other) && final(window).render.layers@[other].input_rect
            == old(window).render.layers@[other].input_rect,
        final(window).render.layer0_pos_pct == old(window).render.layer0_pos_pct,
        final(window).render.surface == old(window).render.surface,
        final(window).layout == old(window).layout,
        final(sink)@.rects.contains_key(old(window).id),
{
    let was = WindowState {
        render: old(window)@.render.with_input_rect(layer, rect),
        ..old(window)@
    };
    assert(was.laid_out(final(window)@, calc, resolve));
    assert(was.render.layers.contains_key(layer) == final(window)@.render.layers.dom().contains(
        layer,
    ));
    assert(was.render.layers.contains_key(other) == final(window)@.render.layers.dom().contains(
        other,
    ));
}

/// A surface that was opened from a handle is shown in its layer and is yet to
/// be announced; without a handle, and where it cannot be opened, the layer
/// shows none. A failure is told and moves nothing; success publishes where the
/// layers take input. Other layers keep their surfaces.
pub proof fn law_opened_surface_is_shown_in_its_layer<
    E,
    O: FnOnce(SharedHandle) -> Result<OverlaySurface, E>,
    C: Fn(OverlayLayout, (u32, u32), (u32, u32)) -> (i32, i32),
    F: Fn(PercentLength, u32) -> i32,
>(
    window: &mut WindowBackend,
    layer: u32,
    handle: Option<SharedHandle>,
    open: O,
    calc: C,
    resolve: F,
    route: &mut LowLevelInput,
    sink: &mut OverlayEventSink,
    done: Result<(), E>,
    other: u32,
)
    requires
        call_ensures(
            WindowBackend::update_layer,
            (window, layer, handle, open, &calc, &resolve, route, sink),
            done,
        ),
        layer != 0,
        other != layer && other != 0,
    ensures
        handle is None ==> done is Ok,
        final(window).render.layers@.contains_key(layer),
        handle is None || done is Err ==> final(window).render.layers@[layer].surface.inner is None,
        handle matches Some(from) ==> exists|outcome: Result<OverlaySurface, E>| #[trigger]
            call_ensures(open, (from,), outcome) && (outcome is Ok ==> done is Ok && final(window).render.layers@[layer].surface.inner == Some(outcome->Ok_0) && final(window).render.layers@[layer].surface.updated) && (outcome is Err ==> done is Err
                && done->Err_0 == outcome->Err_0),
        done is Err ==> *final(route) == *old(route) && *final(sink) == *old(sink),
        done is Ok ==> final(sink)@.rects.contains_key(old(window).id),
        final(window).render.surface == old(window).render.surface,
        old(window).render.layers@.contains_key(other) ==> final(window).render.layers@.contains_key(other) && final(window).render.layers@[other].surface == old(window).render.layers@[other].surface,
        final(window).layout == old(window).layout,
{
    let surface = choose|surface: crate::backend::render::SurfaceState|
        {
            let changed = WindowState {
                render: #[trigger] old(window)@.render.with_surface(
                    layer,
                    surface,
                    handle is None,
                ),
                ..old(window)@
            };
            &&& crate::backend::render::surface_update(handle, open, surface, done)
            &&& match done {
                Ok(()) => changed.laid_out(final(window)@, calc, resolve) && published(
                    final(window)@,
                    resolve,
                    *old(route),
                    *final(route),
                    old(sink)@,
                    final(sink)@,
                ),
                Err(_) => final(window)@ == changed && *final(route) == *old(route)
                    && *final(sink) == *old(sink),
            }
        };
    let was = WindowState {
        render: old(window)@.render.with_surface(layer, surface, handle is None),
        ..old(window)@
    };
    if done is Ok {
        assert(was.laid_out(final(window)@, calc, resolve));
    }
    assert(was.render.layers.contains_key(layer) == final(window)@.render.layers.dom().contains(
        layer,
    ));
    assert(was.render.layers.contains_key(other) == final(window)@.render.layers.dom().contains(
        other,
    ));
    if let Some(from) = handle {
        let outcome = choose|outcome: Result<OverlaySurface, E>| #[trigger]
            call_ensures(open, (from,), outcome) && match outcome {
                Ok(opened) => surface == (crate::backend::render::SurfaceState {
                    inner: Some(opened),
                    updated: true,
                }) && done is Ok,
                Err(error) => surface == crate::backend::render::SurfaceState::fresh() && done
                    == Err::<(), E>(error),
            };
        assert(call_ensures(open, (from,), outcome));
    }
}

/// The same of layer 0, which keeps its place but not, once it shows nothing,
/// where it takes input.
pub proof fn law_opened_surface_is_shown_in_the_lowest_layer<
    E,
    O: FnOnce(SharedHandle) -> Result<OverlaySurface, E>,
    C: Fn(OverlayLayout, (u32, u32), (u32, u32)) -> (i32, i32),
    F: Fn(PercentLength, u32) -> i32,
>(
    window: &mut WindowBackend,
    handle: Option<SharedHandle>,
    open: O,
    calc: C,
    resolve: F,
    route: &mut LowLevelInput,
    sink: &mut OverlayEventSink,
    done: Result<(), E>,
    other: u32,
)
    requires
        call_ensures(
            WindowBackend::update_surface,
            (window, handle, open, &calc, &resolve, route, sink),
            done,
        ),
        other != 0,
    ensures
        handle is None ==> done is Ok && final(window).render.surface.inner is None && final(window).render.layer0_input_rect is None,
        handle is Some ==> final(window).render.layer0_input_rect == old(window).render.layer0_input_rect,
        done is Err ==> final(window).render.surface.inner is None && *final(route) == *old(route)
            && *final(sink) == *old(sink),
        handle matches Some(from) ==> exists|outcome: Result<OverlaySurface, E>| #[trigger]
            call_ensures(open, (from,), outcome) && (outcome is Ok ==> done is Ok && final(window).render.surface.inner == Some(outcome->Ok_0) && final(window).render.surface.updated)
                && (outcome is Err ==> done is Err && done->Err_0 == outcome->Err_0),
        final(window).render.layer0_pos_pct == old(window).render.layer0_pos_pct,
        old(window).render.layers@.contains_key(other) ==> final(window).render.layers@.contains_key(other) && final(window).render.layers@[other].surface == old(window).render.layers@[other].surface,
{
    let surface = choose|surface: crate::backend::render::SurfaceState|
        {
            let changed = WindowState {
                render: #[trigger] old(window)@.render.with_surface(0, surface, handle is None),
                ..old(window)@
            };
            &&& crate::backend::render::surface_update(handle, open, surface, done)
            &&& match done {
                Ok(()) => changed.laid_out(final(window)@, calc, resolve) && published(
                    final(window)@,
                    resolve,
                    *old(route),
                    *final(route),
                    old(sink)@,
                    final(sink)@,
                ),
                Err(_) => final(window)@ == changed && *final(route) == *old(route)
                    && *final(sink) == *old(sink),
            }
        };
    let was = WindowState {
        render: old(window)@.render.with_surface(0, surface, handle is None),
        ..old(window)@
    };
    if done is Ok {
        assert(was.laid_out(final(window)@, calc, resolve));
    }
    assert(was.render.layers.contains_key(other) == final(window)@.render.layers.dom().contains(
        other,
    ));
    if let Some(from) = handle {
        let outcome = choose|outcome: Result<OverlaySurface, E>| #[trigger]
            call_ensures(open, (from,), outcome) && match outcome {
                Ok(opened) => surface == (crate::backend::render::SurfaceState {
                    inner: Some(opened),
                    updated: true,
                }) && done is Ok,
                Err(error) => surface == crate::backend::render::SurfaceState::fresh() && done
                    == Err::<(), E>(error),
            };
        assert(call_ensures(open, (from,), outcome));
    }
}

} // verus!
