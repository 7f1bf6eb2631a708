//! Requests of clients.
//!
//! There are two pipes. The shell owns layer 0 and the layout; the browser owns
//! the layers from 1 on. Requests that reach across are refused.

use crate::backend::render::OverlaySurface;
use crate::backend::window::input_ll::LowLevelInput;
use crate::backend::window::ListenInputFlags;
use crate::backend::{Backends, WindowBackend};
use crate::clients::{should_cleanup_backends, SessionCounter};
use crate::event::{OverlayEvent, WindowEvent};
use crate::event_sink::OverlayEventSink;
use crate::geometry::{LayerInputRect, OverlayLayout, PercentLength};
use crate::paint_cmd::BlockingCursor;
use crate::texture::SharedHandle;
use vstd::prelude::*;

verus! {

/// Which pipe a client came through.
#[derive(Debug, Clone, Copy, PartialEq, Eq, Structural)]
pub enum PipeRole {
    /// The shell: layer 0.
    Shell,
    /// The browser: the layers from 1 on.
    Cef,
}

/// A request about a window.
#[derive(Debug, Clone, Copy)]
#[allow(inconsistent_fields)]
pub enum WindowRequest {
    SetPosition { x: PercentLength, y: PercentLength },
    SetAnchor { x: PercentLength, y: PercentLength },
    SetMargin {
        top: PercentLength,
        right: PercentLength,
        bottom: PercentLength,
        left: PercentLength,
    },
    ListenInput { cursor: bool, keyboard: bool },
    BlockInput { block: bool },
    SetBlockingCursor { cursor: BlockingCursor },
    UpdateSharedHandle { handle: Option<SharedHandle> },
    UpdateLayerHandle { layer: u32, handle: Option<SharedHandle> },
    SetLayerPosition { layer: u32, x: PercentLength, y: PercentLength },
    SetLayerInputRect { layer: u32, rect: Option<LayerInputRect> },
}

impl WindowRequest {
    /// Whether a pipe may make the request: the layout and layer 0 are for the
    /// shell, the other layers for the browser, and input is for both.
    pub open spec fn allowed(self, role: PipeRole) -> bool {
        match self {
            WindowRequest::SetPosition { .. }
            | WindowRequest::SetAnchor { .. }
            | WindowRequest::SetMargin { .. }
            | WindowRequest::UpdateSharedHandle { .. } => role == PipeRole::Shell,
            WindowRequest::ListenInput { .. }
            | WindowRequest::BlockInput { .. }
            | WindowRequest::SetBlockingCursor { .. } => true,
            WindowRequest::UpdateLayerHandle { layer, .. }
            | WindowRequest::SetLayerPosition { layer, .. }
            | WindowRequest::SetLayerInputRect { layer, .. } => role == PipeRole::Cef && layer != 0,
        }
    }

    /// Whether a pipe may make the request.
    pub fn permitted(&self, role: PipeRole) -> (permitted: bool)
        ensures
            permitted == self.allowed(role),
    {
        match self {
            WindowRequest::SetPosition { .. }
            | WindowRequest::SetAnchor { .. }
            | WindowRequest::SetMargin { .. }
            | WindowRequest::UpdateSharedHandle { .. } => role == PipeRole::Shell,
            WindowRequest::ListenInput { .. }
            | WindowRequest::BlockInput { .. }
            | WindowRequest::SetBlockingCursor { .. } => true,
            WindowRequest::UpdateLayerHandle { layer, .. }
            | WindowRequest::SetLayerPosition { layer, .. }
            | WindowRequest::SetLayerInputRect { layer, .. } => role == PipeRole::Cef && *layer
                != 0,
        }
    }

    /// The layout that the request asks for, if it is about the layout.
    pub open spec fn new_layout(self, layout: OverlayLayout) -> Option<OverlayLayout> {
        match self {
            WindowRequest::SetPosition { x, y } => Some(
                OverlayLayout { position: (x, y), ..layout },
            ),
            WindowRequest::SetAnchor { x, y } => Some(OverlayLayout { anchor: (x, y), ..layout }),
            WindowRequest::SetMargin { top, right, bottom, left } => Some(
                OverlayLayout { margin: (top, right, bottom, left), ..layout },
            ),
            _ => None,
        }
    }

    /// The texture that the request has opened, if it is carried out.
    pub open spec fn opened_by(self) -> Option<SharedHandle> {
        match self {
            WindowRequest::UpdateSharedHandle { handle } => handle,
            WindowRequest::UpdateLayerHandle { handle, .. } => handle,
            _ => None,
        }
    }

    /// The layer whose surface the request replaces, and the new handle.
    pub open spec fn new_surface(self) -> Option<(u32, Option<SharedHandle>)> {
        match self {
            WindowRequest::UpdateSharedHandle { handle } => Some((0u32, handle)),
            WindowRequest::UpdateLayerHandle { layer, handle } => Some((layer, handle)),
            _ => None,
        }
    }
}

/// What requests change: a window, the route of input, and the event sink.
#[verifier::ext_equal]
pub struct Scene {
    pub window: crate::backend::WindowState,
    pub route: LowLevelInput,
    pub sink: crate::event_sink::SinkState,
}

impl Scene {
    /// Whether `after` is this scene with `changed` as its window, laid out again.
    pub open spec fn relaid<
        C: Fn(OverlayLayout, (u32, u32), (u32, u32)) -> (i32, i32),
        F: Fn(PercentLength, u32) -> i32,
    >(self, changed: crate::backend::WindowState, after: Scene, calc: C, resolve: F) -> bool {
        &&& changed.laid_out(after.window, calc, resolve)
        &&& crate::backend::published(
            after.window,
            resolve,
            self.route,
            after.route,
            self.sink,
            after.sink,
        )
    }

    /// Whether replacing the surface of a layer leads from this scene to `after`:
    /// a surface that opens is laid out, and the layer is the client's.
    pub open spec fn resurfaced<
        E,
        O: FnOnce(SharedHandle) -> Result<OverlaySurface, E>,
        C: Fn(OverlayLayout, (u32, u32), (u32, u32)) -> (i32, i32),
        F: Fn(PercentLength, u32) -> i32,
    >(
        self,
        after: Scene,
        accepted: bool,
        client: u64,
        layer: u32,
        handle: Option<SharedHandle>,
        open: O,
        calc: C,
        resolve: F,
    ) -> bool {
        exists|surface: crate::backend::render::SurfaceState, done: Result<(), E>|
            {
                let changed = crate::backend::WindowState {
                    render: self.window.render.with_surface(layer, surface, handle is None),
                    ..self.window
                };
                &&& #[trigger] crate::backend::render::surface_update(handle, open, surface, done)
                &&& accepted == (done is Ok)
                &&& if accepted {
                    exists|laid: Scene| #[trigger]
                        self.relaid(changed, laid, calc, resolve) && after == (Scene {
                            sink: laid.sink.bind(client, layer),
                            ..laid
                        })
                } else {
                    after == (Scene { window: changed, ..self })
                }
            }
    }

    /// Whether a permitted request leads from this scene to `after`.
    pub open spec fn handled<
        E,
        O: FnOnce(SharedHandle) -> Result<OverlaySurface, E>,
        C: Fn(OverlayLayout, (u32, u32), (u32, u32)) -> (i32, i32),
        F: Fn(PercentLength, u32) -> i32,
    >(
        self,
        after: Scene,
        accepted: bool,
        client: u64,
        request: WindowRequest,
        role: PipeRole,
        open: O,
        calc: C,
        resolve: F,
    ) -> bool {
        match request {
            WindowRequest::SetPosition { .. }
            | WindowRequest::SetAnchor { .. }
            | WindowRequest::SetMargin { .. } => accepted && self.relaid(
                crate::backend::WindowState {
                    layout: request.new_layout(self.window.layout)->0,
                    ..self.window
                },
                after,
                calc,
                resolve,
            ),
            WindowRequest::ListenInput { cursor, keyboard } => accepted && after == (Scene {
                window: crate::backend::WindowState {
                    proc: crate::backend::window::WindowProcData {
                        listen_input: ListenInputFlags { cursor, keyboard },
                        ..self.window.proc
                    },
                    ..self.window
                },
                sink: if role == PipeRole::Cef && keyboard {
                    self.sink.bind(client, 1)
                } else {
                    self.sink
                },
                ..self
            }),
            WindowRequest::BlockInput { block } => accepted && after == (Scene {
                window: crate::backend::WindowState {
                    proc_queue: self.window.proc_queue.push(
                        if block {
                            crate::backend::GuiTask::Block
                        } else {
                            crate::backend::GuiTask::Unblock
                        },
                    ),
                    ..self.window
                },
                ..self
            }),
            WindowRequest::SetBlockingCursor { cursor } => accepted && after == (Scene {
                window: crate::backend::WindowState {
                    proc: crate::backend::window::WindowProcData {
                        blocking_cursor: cursor,
                        ..self.window.proc
                    },
                    ..self.window
                },
                ..self
            }),
            WindowRequest::UpdateSharedHandle { handle } => self.resurfaced(
                after,
                accepted,
                client,
                0,
                handle,
                open,
                calc,
                resolve,
            ),
            WindowRequest::UpdateLayerHandle { layer, handle } => self.resurfaced(
                after,
                accepted,
                client,
                layer,
                handle,
                open,
                calc,
                resolve,
            ),
            WindowRequest::SetLayerPosition { layer, x, y } => accepted && self.relaid(
                crate::backend::WindowState {
                    render: self.window.render.with_place(layer, (x, y)),
                    ..self.window
                },
                after,
                calc,
                resolve,
            ),
            WindowRequest::SetLayerInputRect { layer, rect } => accepted && self.relaid(
                crate::backend::WindowState {
                    render: self.window.render.with_input_rect(layer, rect),
                    ..self.window
                },
                after,
                calc,
                resolve,
            ),
        }
    }
}

/// Carries a request out on its window, and tells whether it was accepted. A
/// request that its pipe may not make changes nothing.
pub fn apply_request<
    E,
    O: FnOnce(SharedHandle) -> Result<OverlaySurface, E>,
    C: Fn(OverlayLayout, (u32, u32), (u32, u32)) -> (i32, i32),
    F: Fn(PercentLength, u32) -> i32,
>(
    backend: &mut WindowBackend,
    route: &mut LowLevelInput,
    sink: &mut OverlayEventSink,
    client: u64,
    request: WindowRequest,
    role: PipeRole,
    open: O,
    calc: &C,
    resolve: &F,
) -> (accepted: bool)
    requires
        request.allowed(role) ==> (request.opened_by() matches Some(handle) ==> call_requires(
            open,
            (handle,),
        )),
        forall|layout: OverlayLayout, size: (u32, u32), window: (u32, u32)|
            call_requires(*calc, (layout, size, window)),
        forall|length: PercentLength, whole: u32| call_requires(*resolve, (length, whole)),
    ensures
        old(backend)@.render.wf() ==> final(backend)@.render.wf(),
        !request.allowed(role) ==> !accepted && *final(backend) == *old(backend) && *final(route)
            == *old(route) && *final(sink) == *old(sink),
        request.allowed(role) ==> (Scene {
            window: old(backend)@,
            route: *old(route),
            sink: old(sink)@,
        }).handled(
            Scene { window: final(backend)@, route: *final(route), sink: final(sink)@ },
            accepted,
            client,
            request,
            role,
            open,
            *calc,
            *resolve,
        ),
{
    if !request.permitted(role) {
        return false;
    }
    match request {
        WindowRequest::SetPosition { x, y } => {
            let mut layout = backend.layout();
            layout.position = (x, y);
            backend.update_layout(layout, calc, resolve, route, sink);
            true
        },
        WindowRequest::SetAnchor { x, y } => {
            let mut layout = backend.layout();
            layout.anchor = (x, y);
            backend.update_layout(layout, calc, resolve, route, sink);
            true
        },
        WindowRequest::SetMargin { top, right, bottom, left } => {
            let mut layout = backend.layout();
            layout.margin = (top, right, bottom, left);
            backend.update_layout(layout, calc, resolve, route, sink);
            true
        },
        WindowRequest::ListenInput { cursor, keyboard } => {
            backend.listen_input(ListenInputFlags { cursor, keyboard });
            if role == PipeRole::Cef && keyboard {
                sink.bind_layer(client, 1);
            }
            true
        },
        WindowRequest::BlockInput { block } => {
            backend.block_input(block);
            true
        },
        WindowRequest::SetBlockingCursor { cursor } => {
            backend.set_blocking_cursor(cursor);
            true
        },
        WindowRequest::UpdateSharedHandle { handle } => resurface(
            backend,
            route,
            sink,
            client,
            0,
            handle,
            open,
            calc,
            resolve,
        ),
        WindowRequest::UpdateLayerHandle { layer, handle } => resurface(
            backend,
            route,
            sink,
            client,
            layer,
            handle,
            open,
            calc,
            resolve,
        ),
        WindowRequest::SetLayerPosition { layer, x, y } => {
            backend.set_layer_position(layer, x, y, calc, resolve, route, sink);
            true
        },
        WindowRequest::SetLayerInputRect { layer, rect } => {
            backend.set_layer_input_rect(layer, rect, calc, resolve, route, sink);
            true
        },
    }
}

fn resurface<
    E,
    O: FnOnce(SharedHandle) -> Result<OverlaySurface, E>,
    C: Fn(OverlayLayout, (u32, u32), (u32, u32)) -> (i32, i32),
    F: Fn(PercentLength, u32) -> i32,
>(
    backend: &mut WindowBackend,
    route: &mut LowLevelInput,
    sink: &mut OverlayEventSink,
    client: u64,
    layer: u32,
    handle: Option<SharedHandle>,
    open: O,
    calc: &C,
    resolve: &F,
) -> (accepted: bool)
    requires
        handle matches Some(handle) ==> call_requires(open, (handle,)),
        forall|layout: OverlayLayout, size: (u32, u32), window: (u32, u32)|
            call_requires(*calc, (layout, size, window)),
        forall|length: PercentLength, whole: u32| call_requires(*resolve, (length, whole)),
    ensures
        (Scene { window: old(backend)@, route: *old(route), sink: old(sink)@ }).resurfaced(
            Scene { window: final(backend)@, route: *final(route), sink: final(sink)@ },
            accepted,
            client,
            layer,
            handle,
            open,
            *calc,
            *resolve,
        ),
{
    let ghost before = Scene { window: backend@, route: *route, sink: sink@ };
    let done = backend.update_layer(layer, handle, open, calc, resolve, route, sink);
    let ghost surface = choose|surface: crate::backend::render::SurfaceState|
        {
            let changed = crate::backend::WindowState {
                render: #[trigger] before.window.render.with_surface(
                    layer,
                    surface,
                    handle is None,
                ),
                ..before.window
            };
            &&& crate::backend::render::surface_update(handle, open, surface, done)
            &&& match done {
                Ok(()) => changed.laid_out(backend@, *calc, *resolve)
                    && crate::backend::published(
                    backend@,
                    *resolve,
                    before.route,
                    *route,
                    before.sink,
                    sink@,
                ),
                Err(_) => backend@ == changed && *route == before.route && sink@ == before.sink,
            }
        };
    assert(crate::backend::render::surface_update(handle, open, surface, done));
    match done {
        Ok(()) => {
            let ghost laid = Scene { window: backend@, route: *route, sink: sink@ };
            let ghost changed = crate::backend::WindowState {
                render: before.window.render.with_surface(layer, surface, handle is None),
                ..before.window
            };
            assert(before.relaid(changed, laid, *calc, *resolve));
            sink.bind_layer(client, layer);
            true
        },
        Err(_) => false,
    }
}

/// Carries a request out on the window that it is about, and tells whether it
/// was accepted. A request about an unknown window is not.
pub fn handle_window_event<
    E,
    O: FnOnce(SharedHandle) -> Result<OverlaySurface, E>,
    C: Fn(OverlayLayout, (u32, u32), (u32, u32)) -> (i32, i32),
    F: Fn(PercentLength, u32) -> i32,
>(
    backends: &mut Backends,
    route: &mut LowLevelInput,
    sink: &mut OverlayEventSink,
    client: u64,
    hwnd: u32,
    request: WindowRequest,
    role: PipeRole,
    open: O,
    calc: &C,
    resolve: &F,
) -> (accepted: bool)
    requires
        old(backends)@.contains_key(hwnd) && request.allowed(role) ==> (
        request.opened_by() matches Some(handle) ==> call_requires(open, (handle,))),
        forall|layout: OverlayLayout, size: (u32, u32), window: (u32, u32)|
            call_requires(*calc, (layout, size, window)),
        forall|length: PercentLength, whole: u32| call_requires(*resolve, (length, whole)),
    ensures
        crate::backend::layered(old(backends)@) ==> crate::backend::layered(final(backends)@),
        crate::backend::keyed(old(backends)@) ==> crate::backend::keyed(final(backends)@),
        !old(backends)@.contains_key(hwnd) || !request.allowed(role) ==> {
            &&& !accepted
            &&& final(backends)@ == old(backends)@
            &&& *final(route) == *old(route)
            &&& *final(sink) == *old(sink)
        },
        old(backends)@.contains_key(hwnd) && request.allowed(role) ==> final(backends)@
            == old(backends)@.insert(hwnd, final(backends)@[hwnd]) && (Scene {
            window: old(backends)@[hwnd]@,
            route: *old(route),
            sink: old(sink)@,
        }).handled(
            Scene { window: final(backends)@[hwnd]@, route: *final(route), sink: final(sink)@ },
            accepted,
            client,
            request,
            role,
            open,
            *calc,
            *resolve,
        ),
{
    let mut backend = match backends.take(hwnd) {
        Some(backend) => backend,
        None => {
            assert(backends@ =~= old(backends)@);
            return false;
        },
    };
    let accepted = apply_request(
        &mut backend,
        route,
        sink,
        client,
        request,
        role,
        open,
        calc,
        resolve,
    );
    backends.put(hwnd, backend);
    assert(backends@ =~= old(backends)@.insert(hwnd, backends@[hwnd]));
    accepted
}

/// The event that makes a window known to a client.
pub open spec fn added(id: u32, window: WindowBackend) -> OverlayEvent {
    OverlayEvent::Window {
        id,
        event: WindowEvent::Added {
            width: window.render.window_size.0,
            height: window.render.window_size.1,
            gpu_id: window.gpu_id,
        },
    }
}

/// The events that make the given windows known.
pub open spec fn greetings(ids: Seq<u32>, windows: Map<u32, WindowBackend>) -> Seq<OverlayEvent> {
    ids.map_values(|id: u32| added(id, windows[id]))
}

/// The events that make every window known to a client that just connected, in
/// no particular order.
pub fn greeting(backends: &mut Backends) -> (events: Vec<OverlayEvent>)
    ensures
        final(backends)@ == old(backends)@,
        exists|ids: Seq<u32>|
            {
                &&& ids.no_duplicates()
                &&& ids.to_set() == old(backends)@.dom()
                &&& events@ == #[trigger] greetings(ids, old(backends)@)
            },
{
    let ids = backends.iter();
    let mut events: Vec<OverlayEvent> = Vec::new();
    let ghost all = greetings(ids@, old(backends)@);
    let mut i: usize = 0;
    while i < ids.len()
        invariant
            i <= ids@.len(),
            ids@.to_set() == old(backends)@.dom(),
            all == greetings(ids@, old(backends)@),
            backends@ == old(backends)@,
            events@ =~= all.take(i as int),
        decreases ids@.len() - i,
    {
        let id: u32 = ids[i];
        assert(ids@.to_set().contains(id)) by {
            assert(ids@.contains(id));
        }
        if let Some(backend) = backends.take(id) {
            let size = backend.render.window_size;
            events.push(
                OverlayEvent::Window {
                    id,
                    event: WindowEvent::Added {
                        width: size.0,
                        height: size.1,
                        gpu_id: backend.gpu_luid(),
                    },
                },
            );
            backends.put(id, backend);
        }
        assert(backends@ =~= old(backends)@);
        i += 1;
    }
    assert(events@ =~= all);
    events
}

/// There is nothing to open where a layer is cleared.
fn open_nothing(_handle: SharedHandle) -> (none: Result<OverlaySurface, ()>)
    ensures
        none is Err,
{
    Err(())
}

/// A window with a layer cleared.
pub open spec fn layer_cleared(
    window: crate::backend::WindowState,
    layer: u32,
) -> crate::backend::WindowState {
    crate::backend::WindowState {
        render: window.render.with_surface(
            layer,
            crate::backend::render::SurfaceState::fresh(),
            true,
        ),
        ..window
    }
}

/// Whether clearing layers one after the other, and laying the window out again
/// after each, leads from `before` to `after`.
pub open spec fn layers_cleared<
    C: Fn(OverlayLayout, (u32, u32), (u32, u32)) -> (i32, i32),
    F: Fn(PercentLength, u32) -> i32,
>(
    before: crate::backend::WindowState,
    after: crate::backend::WindowState,
    layers: Seq<u32>,
    calc: C,
    resolve: F,
) -> bool
    decreases layers.len(),
{
    if layers.len() == 0 {
        after == before
    } else {
        exists|mid: crate::backend::WindowState|
            {
                &&& layers_cleared(before, mid, layers.drop_last(), calc, resolve)
                &&& #[trigger] clears_to(mid, layers.last(), after, calc, resolve)
            }
    }
}

/// Whether clearing a layer, and laying the window out again, leads from
/// `before` to `after`.
pub open spec fn clears_to<
    C: Fn(OverlayLayout, (u32, u32), (u32, u32)) -> (i32, i32),
    F: Fn(PercentLength, u32) -> i32,
>(
    before: crate::backend::WindowState,
    layer: u32,
    after: crate::backend::WindowState,
    calc: C,
    resolve: F,
) -> bool {
    layer_cleared(before, layer).laid_out(after, calc, resolve)
}

/// Whether the rects of every window were published, and nothing else changed
/// in the sink.
pub open spec fn all_published<F: Fn(PercentLength, u32) -> i32>(
    windows: Map<u32, WindowBackend>,
    before: crate::event_sink::SinkState,
    after: crate::event_sink::SinkState,
    resolve: F,
) -> bool {
    &&& after == (crate::event_sink::SinkState { rects: after.rects, ..before })
    &&& forall|id: u32| #[trigger]
        after.rects.contains_key(id) <==> windows.contains_key(id) || before.rects.contains_key(id)
    &&& forall|id: u32| #[trigger]
        windows.contains_key(id) ==> windows[id]@.render.rects_are(after.rects[id], resolve)
    &&& forall|id: u32|
        !windows.contains_key(id) && before.rects.contains_key(id) ==> #[trigger] after.rects[id]
            == before.rects[id]
}

/// Whether laying out every window left the route alone, or moved it to the
/// surface of one of them.
pub open spec fn route_moved(
    windows: Map<u32, WindowBackend>,
    before: LowLevelInput,
    after: LowLevelInput,
) -> bool {
    if before.route_hwnd == 0 || windows.dom().is_empty() {
        after == before
    } else {
        exists|id: u32| #[trigger]
            windows.contains_key(id) && after == (LowLevelInput {
                route_position: windows[id].render.position,
                ..before
            })
    }
}

/// Clears a layer in every window, and lays the windows out again.
fn clear_layer<
    C: Fn(OverlayLayout, (u32, u32), (u32, u32)) -> (i32, i32),
    F: Fn(PercentLength, u32) -> i32,
>(
    backends: &mut Backends,
    route: &mut LowLevelInput,
    sink: &mut OverlayEventSink,
    layer: u32,
    calc: &C,
    resolve: &F,
)
    requires
        crate::backend::keyed(old(backends)@),
        forall|layout: OverlayLayout, size: (u32, u32), window: (u32, u32)|
            call_requires(*calc, (layout, size, window)),
        forall|length: PercentLength, whole: u32| call_requires(*resolve, (length, whole)),
    ensures
        crate::backend::layered(old(backends)@) ==> crate::backend::layered(final(backends)@),
        crate::backend::keyed(final(backends)@),
        final(backends)@.dom() == old(backends)@.dom(),
        forall|id: u32| #[trigger]
            old(backends)@.contains_key(id) ==> layer_cleared(old(backends)@[id]@, layer).laid_out(
                final(backends)@[id]@,
                *calc,
                *resolve,
            ),
        all_published(final(backends)@, old(sink)@, final(sink)@, *resolve),
        route_moved(final(backends)@, *old(route), *final(route)),
{
    let ids = backends.iter();
    let mut i: usize = 0;
    while i < ids.len()
        invariant
            i <= ids@.len(),
            ids@.no_duplicates(),
            ids@.to_set() == old(backends)@.dom(),
            forall|layout: OverlayLayout, size: (u32, u32), window: (u32, u32)|
                call_requires(*calc, (layout, size, window)),
            forall|length: PercentLength, whole: u32| call_requires(*resolve, (length, whole)),
            crate::backend::keyed(old(backends)@),
            crate::backend::keyed(backends@),
            backends@.dom() =~= old(backends)@.dom(),
            forall|j: int|
                0 <= j < i ==> layer_cleared(old(backends)@[ids@[j]]@, layer).laid_out(
                    (#[trigger] backends@[ids@[j]])@,
                    *calc,
                    *resolve,
                ),
            forall|j: int|
                i <= j < ids@.len() ==> #[trigger] backends@[ids@[j]] == old(backends)@[ids@[j]],
            sink@ == (crate::event_sink::SinkState { rects: sink@.rects, ..old(sink)@ }),
            forall|id: u32| #[trigger]
                sink@.rects.contains_key(id) <==> ids@.take(i as int).contains(id) || old(
                    sink,
                )@.rects.contains_key(id),
            forall|j: int|
                0 <= j < i ==> (#[trigger] backends@[ids@[j]])@.render.rects_are(
                    sink@.rects[ids@[j]],
                    *resolve,
                ),
            forall|id: u32|
                !old(backends)@.contains_key(id) && old(sink)@.rects.contains_key(id)
                    ==> #[trigger] sink@.rects[id] == old(sink)@.rects[id],
            route.route_hwnd == old(route).route_hwnd,
            if old(route).route_hwnd == 0 || i == 0 {
                *route == *old(route)
            } else {
                *route == (LowLevelInput {
                    route_position: backends@[ids@[i - 1]].render.position,
                    ..*old(route)
                })
            },
        decreases ids@.len() - i,
    {
        let id: u32 = ids[i];
        assert(ids@.to_set().contains(id)) by {
            assert(ids@.contains(id));
        }
        let ghost seen = ids@.take(i as int);
        assert(ids@.take(i + 1) =~= seen.push(id));
        assert(backends@[ids@[i as int]] == old(backends)@[id]);
        if let Some(mut backend) = backends.take(id) {
            let ghost original = backend@;
            let done = backend.update_layer(
                layer,
                None,
                open_nothing,
                calc,
                resolve,
                route,
                sink,
            );
            assert(done is Ok);
            assert(layer_cleared(original, layer).laid_out(backend@, *calc, *resolve));
            backends.put(id, backend);
        }
        proof {
            assert forall|other: u32| #[trigger]
                sink@.rects.contains_key(other) <==> ids@.take(i + 1).contains(other) || old(
                    sink,
                )@.rects.contains_key(other) by {
                crate::tables::lemma_push_contains(seen, id, other);
            }
        }
        i += 1;
    }
    proof {
        assert(ids@.take(i as int) =~= ids@);
        assert forall|id: u32| ids@.contains(id) <==> old(backends)@.contains_key(id) by {
            assert(ids@.contains(id) <==> ids@.to_set().contains(id));
        }
        assert forall|id: u32| #[trigger] old(backends)@.contains_key(id) implies layer_cleared(
            old(backends)@[id]@,
            layer,
        ).laid_out(backends@[id]@, *calc, *resolve) && backends@[id]@.render.rects_are(
            sink@.rects[id],
            *resolve,
        ) by {
            assert(ids@.contains(id));
            let j = ids@.index_of(id);
            assert(backends@[ids@[j]]@.render.rects_are(sink@.rects[ids@[j]], *resolve));
        }
        if old(route).route_hwnd != 0 && !backends@.dom().is_empty() {
            let some = backends@.dom().choose();
            assert(backends@.contains_key(some));
            assert(ids@.contains(some));
            let last = ids@[i - 1];
            assert(ids@.contains(last));
            assert(backends@.contains_key(last));
        } else if backends@.dom().is_empty() {
            if ids@.len() > 0 {
                assert(ids@.contains(ids@[0]));
                assert(backends@.contains_key(ids@[0]));
            }
        }
    }
}

/// A client is gone: its layers are unbound and cleared in every window, and it
/// gets no more events. Tells which layers those were.
pub fn disconnect<
    C: Fn(OverlayLayout, (u32, u32), (u32, u32)) -> (i32, i32),
    F: Fn(PercentLength, u32) -> i32,
>(
    backends: &mut Backends,
    route: &mut LowLevelInput,
    sink: &mut OverlayEventSink,
    client: u64,
    calc: &C,
    resolve: &F,
) -> (unbound: Vec<u32>)
    requires
        crate::backend::keyed(old(backends)@),
        forall|layout: OverlayLayout, size: (u32, u32), window: (u32, u32)|
            call_requires(*calc, (layout, size, window)),
        forall|length: PercentLength, whole: u32| call_requires(*resolve, (length, whole)),
    ensures
        crate::backend::layered(old(backends)@) ==> crate::backend::layered(final(backends)@),
        unbound@.no_duplicates(),
        unbound@.to_set() == old(sink)@.layers_of(client),
        crate::backend::keyed(final(backends)@),
        final(backends)@.dom() == old(backends)@.dom(),
        forall|id: u32| #[trigger]
            old(backends)@.contains_key(id) ==> layers_cleared(
                old(backends)@[id]@,
                final(backends)@[id]@,
                unbound@,
                *calc,
                *resolve,
            ),
        exists|mid: crate::event_sink::SinkState|
            {
                &&& if unbound@.len() == 0 {
                    mid == crate::event_sink::after_unbind(old(sink)@, client)
                } else {
                    all_published(
                        final(backends)@,
                        crate::event_sink::after_unbind(old(sink)@, client),
                        mid,
                        *resolve,
                    )
                }
                &&& final(sink)@ == #[trigger] forgotten(mid, client)
            },
        if unbound@.len() == 0 {
            *final(route) == *old(route)
        } else {
            route_moved(final(backends)@, *old(route), *final(route))
        },
{
    let unbound = sink.unbind_client_layers(client);
    let ghost cut = sink@;
    let mut i: usize = 0;
    while i < unbound.len()
        invariant
            i <= unbound@.len(),
            forall|layout: OverlayLayout, size: (u32, u32), window: (u32, u32)|
                call_requires(*calc, (layout, size, window)),
            forall|length: PercentLength, whole: u32| call_requires(*resolve, (length, whole)),
            crate::backend::keyed(backends@),
            crate::backend::layered(old(backends)@) ==> crate::backend::layered(backends@),
            backends@.dom() == old(backends)@.dom(),
            forall|id: u32| #[trigger]
                old(backends)@.contains_key(id) ==> layers_cleared(
                    old(backends)@[id]@,
                    backends@[id]@,
                    unbound@.take(i as int),
                    *calc,
                    *resolve,
                ),
            if i == 0 {
                sink@ == cut && *route == *old(route)
            } else {
                all_published(backends@, cut, sink@, *resolve) && route_moved(
                    backends@,
                    *old(route),
                    *route,
                )
            },
        decreases unbound@.len() - i,
    {
        let ghost windows = backends@;
        assert(unbound@.take(i + 1).drop_last() =~= unbound@.take(i as int));
        clear_layer(backends, route, sink, unbound[i], calc, resolve);
        proof {
            assert forall|id: u32| #[trigger]
                old(backends)@.contains_key(id) implies layers_cleared(
                old(backends)@[id]@,
                backends@[id]@,
                unbound@.take(i + 1),
                *calc,
                *resolve,
            ) by {
                assert(windows.contains_key(id));
                assert(clears_to(
                    windows[id]@,
                    unbound@.take(i + 1).last(),
                    backends@[id]@,
                    *calc,
                    *resolve,
                ));
            }
            assert(forall|id: u32| windows.contains_key(id) <==> backends@.contains_key(id));
        }
        i += 1;
    }
    assert(unbound@.take(i as int) =~= unbound@);
    let ghost mid = sink@;
    sink.remove(client);
    proof {
        assert(mid.layers == cut.layers);
        assert(mid.layers.remove_keys(mid.layers_of(client)) =~= mid.layers) by {
            assert forall|layer: u32| mid.layers.contains_key(layer) implies mid.layers[layer]
                != client by {}
        }
        assert(sink@ == forgotten(mid, client));
    }
    unbound
}

/// The sink without a client.
pub open spec fn forgotten(
    sink: crate::event_sink::SinkState,
    client: u64,
) -> crate::event_sink::SinkState {
    crate::event_sink::SinkState { sinks: crate::event_sink::others(sink.sinks, client), ..sink }
}

/// What a listener is waiting for.
#[derive(Debug, Clone, Copy, PartialEq, Eq, Structural)]
pub enum Listening {
    /// A client on its pipe.
    Client,
    /// A new pipe, while a client is held.
    Pipe,
}

/// What happened to a listener.
#[derive(Debug, Clone, Copy, PartialEq, Eq, Structural)]
pub enum ListenEvent {
    /// What it waited for came.
    Came,
    /// It failed.
    Failed,
}

/// What a listener does next.
#[derive(Debug, Clone, Copy, PartialEq, Eq, Structural)]
pub enum ListenAction {
    /// Wait for a client.
    Connect,
    /// Make a new pipe.
    Create,
    /// Sleep some seconds, then make a new pipe.
    CreateAfter(u64),
    /// Serve the held client beside, and wait for the next on the new pipe.
    Serve,
}

/// How long to wait before another try to make a pipe.
pub const PIPE_RETRY_SECONDS: u64 = 5;

/// What a listener does after an event.
pub open spec fn listens(state: Listening, event: ListenEvent) -> (Listening, ListenAction) {
    match (state, event) {
        (Listening::Client, ListenEvent::Came) => (Listening::Pipe, ListenAction::Create),
        (Listening::Client, ListenEvent::Failed) => (Listening::Client, ListenAction::Connect),
        (Listening::Pipe, ListenEvent::Came) => (Listening::Client, ListenAction::Serve),
        (Listening::Pipe, ListenEvent::Failed) => (
            Listening::Pipe,
            ListenAction::CreateAfter(PIPE_RETRY_SECONDS),
        ),
    }
}

/// A step of a listener. A client is counted as it comes, before its pipe is
/// replaced, so that the end of another session cannot be taken for the last.
pub fn listen_step(
    state: &mut Listening,
    event: ListenEvent,
    sessions: &mut SessionCounter,
) -> (action: ListenAction)
    ensures
        (*final(state), action) == listens(*old(state), event),
        final(sessions)@ == if *old(state) is Client && event is Came {
            old(sessions)@.wrapping_add(1)
        } else {
            old(sessions)@
        },
{
    match (*state, event) {
        (Listening::Client, ListenEvent::Came) => {
            sessions.enter();
            *state = Listening::Pipe;
            ListenAction::Create
        },
        (Listening::Client, ListenEvent::Failed) => ListenAction::Connect,
        (Listening::Pipe, ListenEvent::Came) => {
            *state = Listening::Client;
            ListenAction::Serve
        },
        (Listening::Pipe, ListenEvent::Failed) => ListenAction::CreateAfter(PIPE_RETRY_SECONDS),
    }
}

/// A client that came is served, however often the making of the next pipe
/// fails before.
pub proof fn law_accepted_client_is_served(failures: nat)
    ensures
        listens(
            retried(listens(Listening::Client, ListenEvent::Came).0, failures),
            ListenEvent::Came,
        ) == (Listening::Client, ListenAction::Serve),
    decreases failures,
{
    if failures > 0 {
        law_accepted_client_is_served((failures - 1) as nat);
    }
}

/// Where a listener is after failures in a row.
pub open spec fn retried(state: Listening, failures: nat) -> Listening
    decreases failures,
{
    if failures == 0 {
        state
    } else {
        listens(retried(state, (failures - 1) as nat), ListenEvent::Failed).0
    }
}

/// A session is over. After the last one, everything that clients set is taken
/// back in every window.
pub fn end_session(sessions: &mut SessionCounter, backends: &mut Backends) -> (cleaned: bool)
    requires
        old(sessions)@ > 0,
    ensures
        crate::backend::layered(old(backends)@) ==> crate::backend::layered(final(backends)@),
        final(sessions)@ == old(sessions)@ - 1,
        cleaned == (old(sessions)@ == 1),
        final(backends)@.dom() == old(backends)@.dom(),
        forall|id: u32| #[trigger]
            old(backends)@.contains_key(id) ==> if cleaned {
                final(backends)@[id].was_reset(old(backends)@[id])
            } else {
                final(backends)@[id] == old(backends)@[id]
            },
{
    if should_cleanup_backends(sessions.leave()) {
        backends.cleanup_backends();
        true
    } else {
        false
    }
}

/// The surface of a layer in a window.
pub open spec fn surface_of(
    window: crate::backend::WindowState,
    layer: u32,
) -> crate::backend::render::SurfaceState {
    if layer == 0 {
        window.render.surface
    } else {
        window.render.layer(layer).surface
    }
}

/// A client that is gone leaves no picture behind: the layers that were its own
/// have no surface in any window. The surfaces of other layers stay.
pub proof fn law_cleared_layers_are_blank<
    C: Fn(OverlayLayout, (u32, u32), (u32, u32)) -> (i32, i32),
    F: Fn(PercentLength, u32) -> i32,
>(
    before: crate::backend::WindowState,
    after: crate::backend::WindowState,
    layers: Seq<u32>,
    calc: C,
    resolve: F,
    layer: u32,
)
    requires
        layers_cleared(before, after, layers, calc, resolve),
    ensures
        surface_of(after, layer) == (if layers.contains(layer) {
            crate::backend::render::SurfaceState::fresh()
        } else {
            surface_of(before, layer)
        }),
    decreases layers.len(),
{
    if layers.len() > 0 {
        let rest = layers.drop_last();
        let mid = choose|mid: crate::backend::WindowState|
            {
                &&& layers_cleared(before, mid, rest, calc, resolve)
                &&& #[trigger] clears_to(mid, layers.last(), after, calc, resolve)
            };
        law_cleared_layers_are_blank(before, mid, rest, calc, resolve, layer);
        assert(layers =~= rest.push(layers.last()));
        crate::tables::lemma_push_contains(rest, layers.last(), layer);
        let cleared = layer_cleared(mid, layers.last());
        assert(surface_of(after, layer) == surface_of(cleared, layer)) by {
            if cleared.render.layers.contains_key(layer) {
                assert(after.render.layers.contains_key(layer));
            } else {
                assert(!after.render.layers.contains_key(layer));
            }
        }
    }
}

/// The two pipes are kept apart: a request about the surface of a layer is
/// refused on the pipe that does not own the layer.
pub proof fn law_pipes_are_kept_apart(request: WindowRequest, role: PipeRole)
    requires
        request.allowed(role),
        request.new_surface() is Some,
    ensures
        request.new_surface() matches Some((layer, _)) && (layer == 0) == (role
            == PipeRole::Shell),
{
}

/// Which pipe may ask for what: the layout and the surface of layer 0 are for the
/// shell alone; surfaces, places and input rects of the layers from 1 on are for the
/// browser alone; layer 0 is no layer for the browser, nor a layer request for the
/// shell. Both may listen, block and set the cursor.
pub proof fn law_each_pipe_keeps_to_its_layers(
    request: WindowRequest,
    shell: bool,
    browser: bool,
)
    requires
        call_ensures(WindowRequest::permitted, (&request, PipeRole::Shell), shell),
        call_ensures(WindowRequest::permitted, (&request, PipeRole::Cef), browser),
    ensures
        match request {
            WindowRequest::SetPosition { .. } => shell && !browser,
            WindowRequest::SetAnchor { .. } => shell && !browser,
            WindowRequest::SetMargin { .. } => shell && !browser,
            WindowRequest::UpdateSharedHandle { .. } => shell && !browser,
            WindowRequest::ListenInput { .. } => shell && browser,
            WindowRequest::BlockInput { .. } => shell && browser,
            WindowRequest::SetBlockingCursor { .. } => shell && browser,
            WindowRequest::UpdateLayerHandle { layer, .. } => !shell && browser == (layer > 0),
            WindowRequest::SetLayerPosition { layer, .. } => !shell && browser == (layer > 0),
            WindowRequest::SetLayerInputRect { layer, .. } => !shell && browser == (layer > 0),
        },
{
}

/// What stays when a request is carried out on a window: the window itself, its
/// adapter, its size, its interface, and what it keeps while its input is blocked.
pub proof fn law_requests_leave_the_window_itself<
    E,
    O: FnOnce(SharedHandle) -> Result<OverlaySurface, E>,
    C: Fn(OverlayLayout, (u32, u32), (u32, u32)) -> (i32, i32),
    F: Fn(PercentLength, u32) -> i32,
>(
    backend: &mut WindowBackend,
    route: &mut LowLevelInput,
    sink: &mut OverlayEventSink,
    client: u64,
    request: WindowRequest,
    role: PipeRole,
    open: O,
    calc: C,
    resolve: F,
    accepted: bool,
)
    requires
        call_ensures(
            apply_request::<E, O, C, F>,
            (backend, route, sink, client, request, role, open, &calc, &resolve),
            accepted,
        ),
    ensures
        final(backend).id == old(backend).id,
        final(backend).gpu_id == old(backend).gpu_id,
        final(backend).render.window_size == old(backend).render.window_size,
        final(backend).render.renderer == old(backend).render.renderer,
        final(backend).proc.blocking_state == old(backend).proc.blocking_state,
        final(backend).proc.hotkey == old(backend).proc.hotkey,
        !(request is ListenInput) ==> final(backend).proc.listen_input == old(
            backend,
        ).proc.listen_input,
        !(request is SetBlockingCursor) ==> final(backend).proc.blocking_cursor == old(
            backend,
        ).proc.blocking_cursor,
        !(request is BlockInput) ==> final(backend).proc_queue@ == old(backend).proc_queue@,
        !(request is SetPosition) ==> final(backend).layout.position == old(
            backend,
        ).layout.position,
        !(request is SetAnchor) ==> final(backend).layout.anchor == old(backend).layout.anchor,
        !(request is SetMargin) ==> final(backend).layout.margin == old(backend).layout.margin,
        final(backend).render.layer0_pos_pct == old(backend).render.layer0_pos_pct,
        final(route).route_hwnd == old(route).route_hwnd,
        final(route).blocking_sessions == old(route).blocking_sessions,
        final(sink)@.sinks == old(sink)@.sinks,
        final(sink)@.focus_layer == old(sink)@.focus_layer,
        !accepted ==> final(sink)@ == old(sink)@ && *final(route) == *old(route),
{
    assert(old(backend)@.render.layers =~= old(backend).render.layers@);
}

/// A request about the layout sets that part of the layout which it names, and no
/// other: the position to a position, the anchor to an anchor, the margins in the
/// order top, right, bottom, left. It is accepted from the shell and from nobody else.
pub proof fn law_layout_requests_set_what_they_name<
    E,
    O: FnOnce(SharedHandle) -> Result<OverlaySurface, E>,
    C: Fn(OverlayLayout, (u32, u32), (u32, u32)) -> (i32, i32),
    F: Fn(PercentLength, u32) -> i32,
>(
    backend: &mut WindowBackend,
    route: &mut LowLevelInput,
    sink: &mut OverlayEventSink,
    client: u64,
    request: WindowRequest,
    role: PipeRole,
    open: O,
    calc: C,
    resolve: F,
    accepted: bool,
)
    requires
        call_ensures(
            apply_request::<E, O, C, F>,
            (backend, route, sink, client, request, role, open, &calc, &resolve),
            accepted,
        ),
        request is SetPosition || request is SetAnchor || request is SetMargin,
    ensures
        accepted == (role is Shell),
        role is Cef ==> final(backend).layout == old(backend).layout && final(backend)@ == old(
            backend,
        )@,
        accepted ==> match request {
            WindowRequest::SetPosition { x, y } => {
                &&& final(backend).layout.position.0 == x
                &&& final(backend).layout.position.1 == y
                &&& final(backend).layout.anchor == old(backend).layout.anchor
                &&& final(backend).layout.margin == old(backend).layout.margin
            },
            WindowRequest::SetAnchor { x, y } => {
                &&& final(backend).layout.anchor.0 == x
                &&& final(backend).layout.anchor.1 == y
                &&& final(backend).layout.position == old(backend).layout.position
                &&& final(backend).layout.margin == old(backend).layout.margin
            },
            WindowRequest::SetMargin { top, right, bottom, left } => {
                &&& final(backend).layout.margin.0 == top
                &&& final(backend).layout.margin.1 == right
                &&& final(backend).layout.margin.2 == bottom
                &&& final(backend).layout.margin.3 == left
                &&& final(backend).layout.position == old(backend).layout.position
                &&& final(backend).layout.anchor == old(backend).layout.anchor
            },
            _ => true,
        },
        accepted ==> {
            let size = match old(backend).render.surface.inner {
                Some(surface) => surface.size,
                None => (0u32, 0u32),
            };
            let window = old(backend).render.window_size;
            &&& final(backend).proc.position == final(backend).render.position
            &&& final(backend).render.surface == old(backend).render.surface
            &&& old(backend).render.layer0_pos_pct is None ==> call_ensures(
                calc,
                (final(backend).layout, size, window),
                final(backend).render.position,
            )
            &&& old(backend).render.layer0_pos_pct matches Some((x, y)) ==> call_ensures(
                resolve,
                (x, window.0),
                final(backend).render.position.0,
            ) && call_ensures(resolve, (y, window.1), final(backend).render.position.1)
            &&& old(route).route_hwnd != 0 ==> final(route).route_position == final(backend).render.position
        },
{
}

/// Listening and the cursor are set as they are asked for, each flag to its own; the
/// browser owns layer 1 once it listens to keys, if nobody did.
pub proof fn law_listening_is_as_asked<
    E,
    O: FnOnce(SharedHandle) -> Result<OverlaySurface, E>,
    C: Fn(OverlayLayout, (u32, u32), (u32, u32)) -> (i32, i32),
    F: Fn(PercentLength, u32) -> i32,
>(
    backend: &mut WindowBackend,
    route: &mut LowLevelInput,
    sink: &mut OverlayEventSink,
    client: u64,
    request: WindowRequest,
    role: PipeRole,
    open: O,
    calc: C,
    resolve: F,
    accepted: bool,
)
    requires
        call_ensures(
            apply_request::<E, O, C, F>,
            (backend, route, sink, client, request, role, open, &calc, &resolve),
            accepted,
        ),
        request is ListenInput || request is BlockInput || request is SetBlockingCursor,
    ensures
        accepted,
        final(backend).render@ == old(backend).render@,
        final(backend).layout == old(backend).layout,
        final(sink)@.rects == old(sink)@.rects,
        match request {
            WindowRequest::ListenInput { cursor, keyboard } => {
                &&& final(backend).proc.listen_input.cursor == cursor
                &&& final(backend).proc.listen_input.keyboard == keyboard
                &&& role is Cef && keyboard && !old(sink)@.layers.contains_key(1) ==> final(sink)@.layers == old(sink)@.layers.insert(1, client)
                &&& role is Shell || !keyboard || old(sink)@.layers.contains_key(1) ==> final(sink)@.layers == old(sink)@.layers
            },
            WindowRequest::BlockInput { block } => {
                &&& final(backend).proc_queue@.len() == old(backend).proc_queue@.len() + 1
                &&& final(backend).proc_queue@.last() == (if block {
                    crate::backend::GuiTask::Block
                } else {
                    crate::backend::GuiTask::Unblock
                })
                &&& final(backend).proc_queue@.drop_last() == old(backend).proc_queue@
                &&& final(backend).proc == old(backend).proc
                &&& final(sink)@ == old(sink)@
            },
            WindowRequest::SetBlockingCursor { cursor } => {
                &&& final(backend).proc.blocking_cursor == cursor
                &&& final(sink)@ == old(sink)@
            },
            _ => true,
        },
{
    if request is BlockInput {
        assert(final(backend).proc_queue@.drop_last() =~= old(backend).proc_queue@);
    }
}

/// A handle that a client hands over goes to the layer that the request names, layer
/// 0 where it names none: what opening it gave is what the layer holds, and the client
/// owns the layer, if nobody did. Without a handle the layer holds nothing. Where the
/// handle does not open the request fails.
pub proof fn law_handles_reach_their_layer<
    E,
    O: FnOnce(SharedHandle) -> Result<OverlaySurface, E>,
    C: Fn(OverlayLayout, (u32, u32), (u32, u32)) -> (i32, i32),
    F: Fn(PercentLength, u32) -> i32,
>(
    backend: &mut WindowBackend,
    route: &mut LowLevelInput,
    sink: &mut OverlayEventSink,
    client: u64,
    request: WindowRequest,
    role: PipeRole,
    open: O,
    calc: C,
    resolve: F,
    accepted: bool,
    layer: u32,
    handle: Option<SharedHandle>,
)
    requires
        call_ensures(
            apply_request::<E, O, C, F>,
            (backend, route, sink, client, request, role, open, &calc, &resolve),
            accepted,
        ),
        (role is Shell && layer == 0 && request == (WindowRequest::UpdateSharedHandle { handle }))
            || (role is Cef && layer != 0 && request == (WindowRequest::UpdateLayerHandle {
            layer,
            handle,
        })),
    ensures
        ({
            let surface = if layer == 0 {
                final(backend).render.surface
            } else {
                final(backend).render.layers@[layer].surface
            };
            &&& layer != 0 ==> final(backend).render.layers@.contains_key(layer)
            &&& surface.updated
            &&& handle is None ==> accepted && surface.inner is None
            &&& handle is Some && accepted ==> surface.inner is Some && call_ensures(
                open,
                (handle->0,),
                Ok::<OverlaySurface, E>(surface.inner->0),
            )
            &&& !accepted ==> handle is Some && surface.inner is None && exists|error: E|
                call_ensures(open, (handle->0,), Err::<OverlaySurface, E>(error))
        }),
        layer != 0 ==> final(backend).render.surface == old(backend).render.surface,
        forall|other: u32|
            other != layer && old(backend).render.layers@.contains_key(other) ==> (
            #[trigger] final(backend).render.layers@.contains_key(other)) && final(backend).render.layers@[other].surface == old(backend).render.layers@[other].surface,
        final(backend).layout == old(backend).layout,
        accepted && !old(sink)@.layers.contains_key(layer) ==> final(sink)@.layers == old(
            sink,
        )@.layers.insert(layer, client),
        !accepted || old(sink)@.layers.contains_key(layer) ==> final(sink)@.layers == old(
            sink,
        )@.layers,
{
    let before = Scene { window: old(backend)@, route: *old(route), sink: old(sink)@ };
    let after = Scene { window: final(backend)@, route: *final(route), sink: final(sink)@ };
    assert(before.resurfaced(after, accepted, client, layer, handle, open, calc, resolve));
    let (surface, done): (crate::backend::render::SurfaceState, Result<(), E>) = choose|
        surface: crate::backend::render::SurfaceState,
        done: Result<(), E>,
    |
        {
            let changed = crate::backend::WindowState {
                render: before.window.render.with_surface(layer, surface, handle is None),
                ..before.window
            };
            &&& #[trigger] crate::backend::render::surface_update(handle, open, surface, done)
            &&& accepted == (done is Ok)
            &&& if accepted {
                exists|laid: Scene| #[trigger]
                    before.relaid(changed, laid, calc, resolve) && after == (Scene {
                        sink: laid.sink.bind(client, layer),
                        ..laid
                    })
            } else {
                after == (Scene { window: changed, ..before })
            }
        };
    let changed = crate::backend::WindowState {
        render: before.window.render.with_surface(layer, surface, handle is None),
        ..before.window
    };
    assert(crate::backend::render::surface_update(handle, open, surface, done));
    if !accepted {
        assert(call_ensures(open, (handle->0,), Err::<OverlaySurface, E>(done->Err_0)));
    }
    assert forall|other: u32|
        other != layer && old(backend).render.layers@.contains_key(other) implies (
    #[trigger] final(backend).render.layers@.contains_key(other)) && final(backend).render.layers@[other].surface == old(backend).render.layers@[other].surface by {
        assert(changed.render.layers.contains_key(other));
        assert(changed.render.layers[other] == before.window.render.layers[other]);
        if accepted {
            assert(after.window.render.layers.dom() == changed.render.layers.dom());
            assert(after.window.render.layers.contains_key(other));
        }
    }
    if layer != 0 {
        assert(changed.render.layers.contains_key(layer));
        if accepted {
            assert(after.window.render.layers.contains_key(layer));
        }
    }
}

/// A place that the browser asks for is where the layer goes: across the width of
/// the window by its first coordinate, down its height by its second. An input rect
/// is kept as it is. Neither touches any other layer's settings.
pub proof fn law_layer_requests_reach_their_layer<
    E,
    O: FnOnce(SharedHandle) -> Result<OverlaySurface, E>,
    C: Fn(OverlayLayout, (u32, u32), (u32, u32)) -> (i32, i32),
    F: Fn(PercentLength, u32) -> i32,
>(
    backend: &mut WindowBackend,
    route: &mut LowLevelInput,
    sink: &mut OverlayEventSink,
    client: u64,
    request: WindowRequest,
    open: O,
    calc: C,
    resolve: F,
    accepted: bool,
    layer: u32,
)
    requires
        call_ensures(
            apply_request::<E, O, C, F>,
            (backend, route, sink, client, request, PipeRole::Cef, open, &calc, &resolve),
            accepted,
        ),
        layer != 0,
        (request matches WindowRequest::SetLayerPosition { layer: named, .. } && named == layer)
            || (request matches WindowRequest::SetLayerInputRect { layer: named, .. } && named
            == layer),
    ensures
        accepted,
        final(backend).render.layers@.contains_key(layer),
        match request {
            WindowRequest::SetLayerPosition { x, y, .. } => {
                let window = old(backend).render.window_size;
                &&& final(backend).render.layers@[layer].pos_pct == Some((x, y))
                &&& call_ensures(
                    resolve,
                    (x, window.0),
                    final(backend).render.layers@[layer].position.0,
                )
                &&& call_ensures(
                    resolve,
                    (y, window.1),
                    final(backend).render.layers@[layer].position.1,
                )
                &&& old(backend).render.layers@.contains_key(layer) ==> final(backend).render.layers@[layer].input_rect == old(
                    backend,
                ).render.layers@[layer].input_rect
            },
            WindowRequest::SetLayerInputRect { rect, .. } => {
                &&& final(backend).render.layers@[layer].input_rect == rect
                &&& old(backend).render.layers@.contains_key(layer) ==> final(backend).render.layers@[layer].pos_pct == old(backend).render.layers@[layer].pos_pct
            },
            _ => true,
        },
        old(backend).render.layers@.contains_key(layer) ==> final(backend).render.layers@[layer].surface == old(backend).render.layers@[layer].surface,
        forall|other: u32|
            other != layer && old(backend).render.layers@.contains_key(other) ==> (
            #[trigger] final(backend).render.layers@.contains_key(other)) && final(backend).render.layers@[other].surface == old(backend).render.layers@[other].surface && final(backend).render.layers@[other].pos_pct == old(backend).render.layers@[other].pos_pct && final(backend).render.layers@[other].input_rect == old(backend).render.layers@[other].input_rect,
        final(backend).render.surface == old(backend).render.surface,
        final(backend).render.layer0_input_rect == old(backend).render.layer0_input_rect,
        final(backend).layout == old(backend).layout,
        final(sink)@.layers == old(sink)@.layers,
{
    let changed = match request {
        WindowRequest::SetLayerPosition { x, y, .. } => crate::backend::WindowState {
            render: old(backend)@.render.with_place(layer, (x, y)),
            ..old(backend)@
        },
        WindowRequest::SetLayerInputRect { rect, .. } => crate::backend::WindowState {
            render: old(backend)@.render.with_input_rect(layer, rect),
            ..old(backend)@
        },
        _ => old(backend)@,
    };
    assert(changed.laid_out(final(backend)@, calc, resolve));
    assert(changed.render.layers.contains_key(layer));
    assert(final(backend)@.render.layers.contains_key(layer));
    assert forall|other: u32|
        other != layer && old(backend).render.layers@.contains_key(other) implies (
    #[trigger] final(backend).render.layers@.contains_key(other)) && final(backend).render.layers@[other].surface == old(backend).render.layers@[other].surface && final(backend).render.layers@[other].pos_pct == old(backend).render.layers@[other].pos_pct && final(backend).render.layers@[other].input_rect == old(backend).render.layers@[other].input_rect by {
        assert(changed.render.layers.contains_key(other));
        assert(final(backend)@.render.layers.contains_key(other));
    }
}

/// Where layers take input is published with every accepted request that moves or
/// shows something: each published rect is where its layer is drawn, or the input
/// rect that was set for it, and each layer with a surface has one. The rects of other
/// windows stay.
pub proof fn law_accepted_requests_publish_the_rects<
    E,
    O: FnOnce(SharedHandle) -> Result<OverlaySurface, E>,
    C: Fn(OverlayLayout, (u32, u32), (u32, u32)) -> (i32, i32),
    F: Fn(PercentLength, u32) -> i32,
>(
    backend: &mut WindowBackend,
    route: &mut LowLevelInput,
    sink: &mut OverlayEventSink,
    client: u64,
    request: WindowRequest,
    role: PipeRole,
    open: O,
    calc: C,
    resolve: F,
    accepted: bool,
    layer: u32,
    other: u32,
)
    requires
        call_ensures(
            apply_request::<E, O, C, F>,
            (backend, route, sink, client, request, role, open, &calc, &resolve),
            accepted,
        ),
        accepted,
        !(request is ListenInput || request is BlockInput || request is SetBlockingCursor),
        !backend.render.layers@.contains_key(0),
        other != backend.id,
    ensures
        final(sink)@.rects.contains_key(old(backend).id),
        final(sink)@.rects.contains_key(other) == old(sink)@.rects.contains_key(other),
        old(sink)@.rects.contains_key(other) ==> final(sink)@.rects[other] == old(
            sink,
        )@.rects[other],
        ({
            let rects = final(sink)@.rects[old(backend).id];
            let there = layer == 0 || final(backend).render.layers@.contains_key(layer);
            let surface = if layer == 0 {
                final(backend).render.surface.inner
            } else {
                final(backend).render.layers@[layer].surface.inner
            };
            let input = if layer == 0 {
                final(backend).render.layer0_input_rect
            } else {
                final(backend).render.layers@[layer].input_rect
            };
            let position = if layer == 0 {
                final(backend).render.position
            } else {
                final(backend).render.layers@[layer].position
            };
            &&& there && surface is Some && input is None ==> rects.contains(
                (layer, position.0, position.1, (surface->0).size.0, (surface->0).size.1),
            )
            &&& there && surface is Some && input is Some ==> exists|rect: crate::event_sink::LayerRect|
                {
                    &&& #[trigger] rects.contains(rect)
                    &&& rect.0 == layer
                    &&& rect.3 == (input->0).width
                    &&& rect.4 == (input->0).height
                    &&& call_ensures(
                        resolve,
                        ((input->0).x, final(backend).render.window_size.0),
                        rect.1,
                    )
                    &&& call_ensures(
                        resolve,
                        ((input->0).y, final(backend).render.window_size.1),
                        rect.2,
                    )
                }
            &&& !there || surface is None ==> forall|i: int|
                0 <= i < rects.len() ==> (#[trigger] rects[i]).0 != layer
        }),
{
    let before = Scene { window: old(backend)@, route: *old(route), sink: old(sink)@ };
    let after = Scene { window: final(backend)@, route: *final(route), sink: final(sink)@ };
    let state = final(backend)@.render;
    let rects = final(sink)@.rects[old(backend).id];
    assert(request.allowed(role));
    assert(before.handled(after, accepted, client, request, role, open, calc, resolve));
    assert(final(sink)@.rects.contains_key(old(backend).id));
    assert(state.rects_are(rects, resolve));
    assert(state.wf());
    crate::backend::render::law_layers_take_input_in_order(state, rects, resolve);
    if state.live(layer) {
        let i = choose|i: int| 0 <= i < rects.len() && (#[trigger] rects[i]).0 == layer;
        crate::backend::render::lemma_rect_of_layer(state, rects, resolve, i);
        assert(rects.contains(rects[i]));
    }
}

/// A request about a window that is not known changes nothing, and neither does one
/// that its pipe may not make. Any other leaves every window but its own as it was.
pub proof fn law_requests_stay_in_their_window<
    E,
    O: FnOnce(SharedHandle) -> Result<OverlaySurface, E>,
    C: Fn(OverlayLayout, (u32, u32), (u32, u32)) -> (i32, i32),
    F: Fn(PercentLength, u32) -> i32,
>(
    backends: &mut Backends,
    route: &mut LowLevelInput,
    sink: &mut OverlayEventSink,
    client: u64,
    hwnd: u32,
    request: WindowRequest,
    role: PipeRole,
    open: O,
    calc: C,
    resolve: F,
    accepted: bool,
    permitted: bool,
    other: u32,
)
    requires
        call_ensures(
            handle_window_event::<E, O, C, F>,
            (backends, route, sink, client, hwnd, request, role, open, &calc, &resolve),
            accepted,
        ),
        call_ensures(WindowRequest::permitted, (&request, role), permitted),
        other != hwnd,
    ensures
        accepted ==> permitted && old(backends)@.contains_key(hwnd),
        !permitted || !old(backends)@.contains_key(hwnd) ==> final(backends)@ == old(backends)@
            && *final(sink) == *old(sink) && *final(route) == *old(route),
        final(backends)@.contains_key(other) == old(backends)@.contains_key(other),
        old(backends)@.contains_key(other) ==> final(backends)@[other] == old(backends)@[other],
        old(backends)@.contains_key(hwnd) == final(backends)@.contains_key(hwnd),
        final(sink)@.sinks == old(sink)@.sinks,
{
    if old(backends)@.contains_key(hwnd) && request.allowed(role) {
        assert(final(backends)@ == old(backends)@.insert(hwnd, final(backends)@[hwnd]));
    }
}

/// What a request does to a window that is known is what it does to the window.
pub proof fn law_known_windows_are_served<
    E,
    O: FnOnce(SharedHandle) -> Result<OverlaySurface, E>,
    C: Fn(OverlayLayout, (u32, u32), (u32, u32)) -> (i32, i32),
    F: Fn(PercentLength, u32) -> i32,
>(
    backends: &mut Backends,
    route: &mut LowLevelInput,
    sink: &mut OverlayEventSink,
    client: u64,
    hwnd: u32,
    request: WindowRequest,
    role: PipeRole,
    open: O,
    calc: C,
    resolve: F,
    accepted: bool,
)
    requires
        call_ensures(
            handle_window_event::<E, O, C, F>,
            (backends, route, sink, client, hwnd, request, role, open, &calc, &resolve),
            accepted,
        ),
        backends@.contains_key(hwnd),
    ensures
        ({
            let was = old(backends)@[hwnd];
            let is = final(backends)@[hwnd];
            match request {
                WindowRequest::SetPosition { x, y } => accepted == (role is Shell) && (accepted
                    ==> is.layout.position == (x, y) && is.layout.anchor == was.layout.anchor
                    && is.layout.margin == was.layout.margin),
                WindowRequest::SetAnchor { x, y } => accepted == (role is Shell) && (accepted
                    ==> is.layout.anchor == (x, y) && is.layout.position == was.layout.position
                    && is.layout.margin == was.layout.margin),
                WindowRequest::SetMargin { top, right, bottom, left } => accepted == (
                role is Shell) && (accepted ==> is.layout.margin == (top, right, bottom, left)
                    && is.layout.position == was.layout.position && is.layout.anchor
                    == was.layout.anchor),
                WindowRequest::ListenInput { cursor, keyboard } => accepted
                    && is.proc.listen_input.cursor == cursor && is.proc.listen_input.keyboard
                    == keyboard,
                WindowRequest::SetBlockingCursor { cursor } => accepted && is.proc.blocking_cursor
                    == cursor,
                WindowRequest::BlockInput { block } => accepted && is.proc_queue@
                    == was.proc_queue@.push(
                    if block {
                        crate::backend::GuiTask::Block
                    } else {
                        crate::backend::GuiTask::Unblock
                    },
                ),
                WindowRequest::UpdateSharedHandle { handle } => accepted ==> role is Shell && (
                is.render.surface.inner is Some) == (handle is Some),
                WindowRequest::UpdateLayerHandle { layer, handle } => accepted ==> role is Cef
                    && layer > 0,
                WindowRequest::SetLayerPosition { layer, .. } => accepted == (role is Cef && layer
                    > 0),
                WindowRequest::SetLayerInputRect { layer, .. } => accepted == (role is Cef && layer
                    > 0),
            }
        }),
{
    let was = old(backends)@[hwnd];
    let is = final(backends)@[hwnd];
    assert(was@.layout == was.layout && is@.layout == is.layout);
    assert(was@.proc == was.proc && is@.proc == is.proc);
}

/// A client that comes learns of every window once: with the id that the window is
/// known under, its width, its height and its adapter. The windows stay as they are.
pub proof fn law_greeting_names_every_window(
    backends: &mut Backends,
    events: Vec<OverlayEvent>,
    id: u32,
)
    requires
        call_ensures(greeting, (backends,), events),
    ensures
        final(backends)@ == old(backends)@,
        old(backends)@.contains_key(id) ==> events@.contains(
            OverlayEvent::Window {
                id,
                event: WindowEvent::Added {
                    width: old(backends)@[id].render.window_size.0,
                    height: old(backends)@[id].render.window_size.1,
                    gpu_id: old(backends)@[id].gpu_id,
                },
            },
        ),
        forall|i: int, j: int|
            0 <= i < j < events@.len() ==> (#[trigger] events@[i]).window() != (
            #[trigger] events@[j]).window(),
        forall|i: int|
            0 <= i < events@.len() ==> old(backends)@.contains_key((#[trigger] events@[i]).window())
                && events@[i].what() is Added,
{
    let ids = choose|ids: Seq<u32>|
        {
            &&& ids.no_duplicates()
            &&& ids.to_set() == old(backends)@.dom()
            &&& events@ == #[trigger] greetings(ids, old(backends)@)
        };
    assert forall|i: int| 0 <= i < events@.len() implies old(backends)@.contains_key(
        (#[trigger] events@[i]).window(),
    ) && events@[i].what() is Added && events@[i].window() == ids[i] by {
        assert(ids.to_set().contains(ids[i]));
    }
    if old(backends)@.contains_key(id) {
        assert(ids.to_set().contains(id));
        let i = ids.index_of(id);
        assert(events@[i] == added(id, old(backends)@[id]));
    }
}

/// A listener that waits for a client makes the next pipe when one comes, and serves
/// it on that pipe; a client that did not come is waited for again, and a pipe that
/// could not be made is tried again after five seconds. Only a client that comes is
/// counted, by one.
pub proof fn law_every_client_gets_a_pipe(
    state: &mut Listening,
    event: ListenEvent,
    sessions: &mut SessionCounter,
    action: ListenAction,
)
    requires
        call_ensures(listen_step, (state, event, sessions), action),
        sessions@ < usize::MAX,
    ensures
        *old(state) is Client && event is Came ==> action == ListenAction::Create && *final(state) is Pipe && final(sessions)@ == old(sessions)@ + 1,
        *old(state) is Client && event is Failed ==> action == ListenAction::Connect && *final(state) is Client,
        *old(state) is Pipe && event is Came ==> action == ListenAction::Serve && *final(state) is Client,
        *old(state) is Pipe && event is Failed ==> action == ListenAction::CreateAfter(5)
            && *final(state) is Pipe,
        !(*old(state) is Client && event is Came) ==> final(sessions)@ == old(sessions)@,
{
}

/// The end of a session takes nothing back while others go on; the end of the last
/// takes back, in every window, what clients set: the layout, the surfaces, what is
/// listened to and the cursor, and has the game get its input back. Which windows there
/// are does not change.
pub proof fn law_last_session_takes_everything_back(
    sessions: &mut SessionCounter,
    backends: &mut Backends,
    cleaned: bool,
    id: u32,
    layer: u32,
)
    requires
        call_ensures(end_session, (sessions, backends), cleaned),
        backends@.contains_key(id),
    ensures
        final(sessions)@ == old(sessions)@ - 1,
        cleaned == (final(sessions)@ == 0),
        final(backends)@.contains_key(id),
        final(backends)@[id].id == old(backends)@[id].id,
        !cleaned ==> final(backends)@[id] == old(backends)@[id],
        cleaned ==> {
            let window = final(backends)@[id];
            &&& window.render.surface.inner is None && window.render.surface.updated
            &&& !window.render.layers@.contains_key(layer)
            &&& window.render.layer0_pos_pct is None && window.render.layer0_input_rect is None
            &&& window.render.position == (0i32, 0i32)
            &&& window.render.window_size == old(backends)@[id].render.window_size
            &&& window.layout.position == (PercentLength::Length(0), PercentLength::Length(0))
            &&& window.layout.anchor == (PercentLength::Length(0), PercentLength::Length(0))
            &&& window.layout.margin == (
                PercentLength::Length(0),
                PercentLength::Length(0),
                PercentLength::Length(0),
                PercentLength::Length(0),
            )
            &&& !window.proc.listen_input.cursor && !window.proc.listen_input.keyboard
            &&& window.proc.blocking_cursor == BlockingCursor::Default
            &&& window.proc_queue@ == old(backends)@[id].proc_queue@.push(
                crate::backend::GuiTask::Unblock,
            )
            &&& window.proc.blocking_state == old(backends)@[id].proc.blocking_state
        },
{
    let window = final(backends)@[id];
    assert(window.render@.layers =~= window.render.layers@);
}

/// A client that is gone leaves nothing: its layers hold no surface in any window and
/// have no owner, and it gets no event. The layers, surfaces and owners of others stay.
pub proof fn law_gone_client_leaves_nothing<
    C: Fn(OverlayLayout, (u32, u32), (u32, u32)) -> (i32, i32),
    F: Fn(PercentLength, u32) -> i32,
>(
    backends: &mut Backends,
    route: &mut LowLevelInput,
    sink: &mut OverlayEventSink,
    client: u64,
    calc: C,
    resolve: F,
    unbound: Vec<u32>,
    layer: u32,
    id: u32,
    other: u64,
)
    requires
        call_ensures(
            disconnect::<C, F>,
            (backends, route, sink, client, &calc, &resolve),
            unbound,
        ),
        other != client,
    ensures
        ({
            let own = old(sink)@.layers.contains_key(layer) && old(sink)@.layers[layer] == client;
            &&& unbound@.contains(layer) == own
            &&& own ==> !final(sink)@.layers.contains_key(layer)
            &&& !own ==> final(sink)@.layers.contains_key(layer) == old(
                sink,
            )@.layers.contains_key(layer)
            &&& !own && old(sink)@.layers.contains_key(layer) ==> final(sink)@.layers[layer]
                == old(sink)@.layers[layer]
            &&& final(backends)@.contains_key(id) == old(backends)@.contains_key(id)
            &&& old(backends)@.contains_key(id) && own && layer == 0 ==> final(backends)@[id].render.surface.inner is None
            &&& old(backends)@.contains_key(id) && own && layer != 0 && final(backends)@[id].render.layers@.contains_key(layer) ==> final(backends)@[id].render.layers@[layer].surface.inner is None
            &&& old(backends)@.contains_key(id) && !own && layer == 0 ==> final(backends)@[id].render.surface == old(backends)@[id].render.surface
            &&& old(backends)@.contains_key(id) && !own && layer != 0 && old(
                backends,
            )@[id].render.layers@.contains_key(layer) && final(backends)@[id].render.layers@.contains_key(layer) ==> final(backends)@[id].render.layers@[layer].surface == old(
                backends,
            )@[id].render.layers@[layer].surface
        }),
        !final(sink)@.sinks.contains(client),
        final(sink)@.sinks.contains(other) == old(sink)@.sinks.contains(other),
{
    let cut = crate::event_sink::after_unbind(old(sink)@, client);
    let mid = choose|mid: crate::event_sink::SinkState|
        {
            &&& if unbound@.len() == 0 {
                mid == cut
            } else {
                all_published(final(backends)@, cut, mid, resolve)
            }
            &&& final(sink)@ == #[trigger] forgotten(mid, client)
        };
    assert(mid.layers == cut.layers && mid.sinks == cut.sinks);
    crate::event_sink::law_removal_is_exact(mid, client, other, layer);
    crate::event_sink::law_removal_is_exact(mid, client, client, layer);
    assert(unbound@.contains(layer) == unbound@.to_set().contains(layer));
    if old(backends)@.contains_key(id) {
        law_cleared_layers_are_blank(
            old(backends)@[id]@,
            final(backends)@[id]@,
            unbound@,
            calc,
            resolve,
            layer,
        );
        assert(final(backends)@[id].render@.layers =~= final(backends)@[id].render.layers@);
    }
    assert(final(backends)@.contains_key(id) == final(backends)@.dom().contains(id));
}

} // verus!
