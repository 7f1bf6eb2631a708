//! What is drawn in a window: the surfaces of its layers, and their places.

use crate::event_sink::LayerRect;
use crate::geometry::{LayerInputRect, PercentLength};
use crate::texture::{SharedHandle, UpdateSharedHandle};
use std::collections::BTreeMap;
use vstd::prelude::*;
use vstd::std_specs::cmp::OrdSpec;
use vstd::std_specs::iter::IteratorSpec;

verus! {

broadcast use {vstd::laws_cmp::group_laws_cmp, vstd::std_specs::btree::group_btree_axioms};

/// Graphics interface that a window is drawn with.
#[derive(Clone, Copy, Debug, PartialEq, Eq, Hash, Structural)]
#[non_exhaustive]
pub enum Renderer {
    Dx12,
    Dx11,
    Dx10,
    Dx9,
    Opengl,
    Vulkan,
}

/// A surface that was opened from a shared handle.
#[derive(Clone, Copy, Debug)]
pub struct OverlaySurface {
    /// Handle under which others can open it.
    pub handle: SharedHandle,
    /// Size in pixels.
    pub size: (u32, u32),
}

/// The surface of a layer, and whether it changed since it was drawn last.
#[derive(Clone, Copy, Debug)]
pub struct SurfaceState {
    pub inner: Option<OverlaySurface>,
    pub updated: bool,
}

impl SurfaceState {
    /// No surface; that has not been noticed yet.
    pub open spec fn fresh() -> SurfaceState {
        SurfaceState { inner: None, updated: true }
    }

    /// No surface; that has not been noticed yet.
    pub fn new() -> (state: SurfaceState)
        ensures
            state == SurfaceState::fresh(),
    {
        SurfaceState { inner: None, updated: true }
    }

    /// The surface.
    pub fn get(&self) -> (surface: Option<OverlaySurface>)
        ensures
            surface == self.inner,
    {
        self.inner
    }

    /// Drops the surface and opens the one with the given handle, if any.
    pub fn update<E>(
        &mut self,
        handle: Option<SharedHandle>,
        open: impl FnOnce(SharedHandle) -> Result<OverlaySurface, E>,
    ) -> (done: Result<(), E>)
        requires
            handle matches Some(handle) ==> call_requires(open, (handle,)),
        ensures
            surface_update(handle, open, *final(self), done),
    {
        self.updated = true;
        self.inner = None;
        let handle: SharedHandle = match handle {
            Some(handle) => handle,
            None => {
                return Ok(());
            },
        };
        match open(handle) {
            Ok(surface) => {
                let ghost outcome: Result<OverlaySurface, E> = Ok(surface);
                assert(call_ensures(open, (handle,), outcome));
                self.inner = Some(surface);
                Ok(())
            },
            Err(error) => {
                let ghost outcome: Result<OverlaySurface, E> = Err(error);
                assert(call_ensures(open, (handle,), outcome));
                Err(error)
            },
        }
    }

    /// The announcement that is due.
    pub open spec fn announcement(self) -> Option<UpdateSharedHandle> {
        if self.updated {
            Some(
                UpdateSharedHandle {
                    handle: match self.inner {
                        Some(surface) => Some(surface.handle),
                        None => None,
                    },
                },
            )
        } else {
            None
        }
    }

    /// The same surface, with nothing left to announce.
    pub open spec fn announced(self) -> SurfaceState {
        SurfaceState { updated: false, ..self }
    }

    /// Announces a change, once.
    pub fn take_update(&mut self) -> (update: Option<UpdateSharedHandle>)
        ensures
            update == old(self).announcement(),
            *final(self) == old(self).announced(),
    {
        if self.updated {
            self.updated = false;
            Some(
                UpdateSharedHandle {
                    handle: match self.inner {
                        Some(surface) => Some(surface.handle),
                        None => None,
                    },
                },
            )
        } else {
            None
        }
    }

    /// Whether there is a change that was not announced; it counts as announced
    /// from now on.
    pub fn invalidate_update(&mut self) -> (updated: bool)
        ensures
            updated == old(self).updated,
            *final(self) == old(self).announced(),
    {
        if self.updated {
            self.updated = false;
            true
        } else {
            false
        }
    }
}

/// How replacing a surface ends: it is the opened one, or there is none. Either
/// way there is something to announce.
pub open spec fn surface_update<E, F: FnOnce(SharedHandle) -> Result<OverlaySurface, E>>(
    handle: Option<SharedHandle>,
    open: F,
    after: SurfaceState,
    done: Result<(), E>,
) -> bool {
    match handle {
        None => after == SurfaceState::fresh() && done is Ok,
        Some(handle) => exists|outcome: Result<OverlaySurface, E>| #[trigger]
            call_ensures(open, (handle,), outcome) && match outcome {
                Ok(surface) => after == (SurfaceState { inner: Some(surface), updated: true })
                    && done is Ok,
                Err(error) => after == SurfaceState::fresh() && done == Err::<(), E>(error),
            },
    }
}

/// A layer above the shell.
#[derive(Clone, Copy, Debug)]
pub struct LayerState {
    pub surface: SurfaceState,
    pub position: (i32, i32),
    /// Place that was asked for, relative to the window.
    pub pos_pct: Option<(PercentLength, PercentLength)>,
    /// Where the layer takes input, if not where it is drawn.
    pub input_rect: Option<LayerInputRect>,
}

impl LayerState {
    /// A layer without a surface.
    pub open spec fn fresh() -> LayerState {
        LayerState {
            surface: SurfaceState::fresh(),
            position: (0, 0),
            pos_pct: None,
            input_rect: None,
        }
    }

    /// A layer without a surface.
    pub fn new() -> (layer: LayerState)
        ensures
            layer == LayerState::fresh(),
    {
        LayerState {
            surface: SurfaceState::new(),
            position: (0, 0),
            pos_pct: None,
            input_rect: None,
        }
    }
}

/// A layer to draw: its number, what changed of its surface, where it goes, and
/// how large it is.
pub type DrawnLayer = (u32, Option<UpdateSharedHandle>, (i32, i32), (u32, u32));

/// What is drawn in a window.
pub struct RenderData {
    /// Place of layer 0.
    pub position: (i32, i32),
    pub window_size: (u32, u32),
    /// Surface of layer 0.
    pub surface: SurfaceState,
    pub renderer: Option<Renderer>,
    /// The layers from 1 on.
    pub layers: BTreeMap<u32, LayerState>,
    pub layer0_pos_pct: Option<(PercentLength, PercentLength)>,
    pub layer0_input_rect: Option<LayerInputRect>,
}

/// What is drawn in a window.
#[verifier::ext_equal]
pub struct RenderState {
    pub position: (i32, i32),
    pub window_size: (u32, u32),
    pub surface: SurfaceState,
    pub renderer: Option<Renderer>,
    pub layers: Map<u32, LayerState>,
    pub layer0_pos_pct: Option<(PercentLength, PercentLength)>,
    pub layer0_input_rect: Option<LayerInputRect>,
}

impl View for RenderData {
    type V = RenderState;

    open spec fn view(&self) -> RenderState {
        RenderState {
            position: self.position,
            window_size: self.window_size,
            surface: self.surface,
            renderer: self.renderer,
            layers: self.layers@,
            layer0_pos_pct: self.layer0_pos_pct,
            layer0_input_rect: self.layer0_input_rect,
        }
    }
}

/// Whether `keys` lists the keys of a table in ascending order.
pub open spec fn lists(keys: Seq<u32>, layers: Map<u32, LayerState>) -> bool {
    &&& forall|i: int, j: int| 0 <= i < j < keys.len() ==> keys[i] < keys[j]
    &&& forall|key: u32| keys.contains(key) <==> layers.contains_key(key)
}

/// How one layer is drawn: a layer without a surface is drawn once, empty, so
/// that what there was of it disappears.
pub open spec fn drawn(layer: u32, surface: SurfaceState, position: (i32, i32)) -> Seq<DrawnLayer> {
    match surface.inner {
        Some(inner) => seq![(layer, surface.announcement(), position, inner.size)],
        None => if surface.updated {
            seq![(layer, surface.announcement(), (0i32, 0i32), (0u32, 0u32))]
        } else {
            seq![]
        },
    }
}

/// How the layers with the given keys are drawn, in that order.
pub open spec fn drawn_layers(keys: Seq<u32>, layers: Map<u32, LayerState>) -> Seq<DrawnLayer>
    decreases keys.len(),
{
    if keys.len() == 0 {
        seq![]
    } else {
        let layer = layers[keys.last()];
        drawn_layers(keys.drop_last(), layers) + drawn(keys.last(), layer.surface, layer.position)
    }
}

/// Whether each layer of a list is above those before it, so that none comes
/// twice.
pub open spec fn ascends(list: Seq<DrawnLayer>) -> bool {
    forall|i: int, j: int|
        0 <= i < j < list.len() ==> (#[trigger] list[i]).0 < (#[trigger] list[j]).0
}

/// Whether each layer of a list of rects is above those before it.
pub open spec fn rects_ascend(rects: Seq<LayerRect>) -> bool {
    forall|i: int, j: int|
        0 <= i < j < rects.len() ==> (#[trigger] rects[i]).0 < (#[trigger] rects[j]).0
}

/// Whether `rect` is where a layer takes input: its input rect, whose corner
/// `resolve` finds in the window, or else where it is drawn.
pub open spec fn takes_input<F: Fn(PercentLength, u32) -> i32>(
    rect: LayerRect,
    layer: u32,
    input: Option<LayerInputRect>,
    position: (i32, i32),
    texture_size: (u32, u32),
    window_size: (u32, u32),
    resolve: F,
) -> bool {
    match input {
        Some(area) => {
            &&& rect.0 == layer
            &&& call_ensures(resolve, (area.x, window_size.0), rect.1)
            &&& call_ensures(resolve, (area.y, window_size.1), rect.2)
            &&& rect.3 == area.width
            &&& rect.4 == area.height
        },
        None => rect == (layer, position.0, position.1, texture_size.0, texture_size.1),
    }
}

/// Whether `rects` are where the given layers take input, in that order; layers
/// without a surface do not.
pub open spec fn take_input<F: Fn(PercentLength, u32) -> i32>(
    rects: Seq<LayerRect>,
    keys: Seq<u32>,
    layers: Map<u32, LayerState>,
    window_size: (u32, u32),
    resolve: F,
) -> bool
    decreases keys.len(),
{
    if keys.len() == 0 {
        rects.len() == 0
    } else {
        let layer = layers[keys.last()];
        match layer.surface.inner {
            Some(surface) => {
                &&& rects.len() > 0
                &&& takes_input(
                    rects.last(),
                    keys.last(),
                    layer.input_rect,
                    layer.position,
                    surface.size,
                    window_size,
                    resolve,
                )
                &&& take_input(rects.drop_last(), keys.drop_last(), layers, window_size, resolve)
            },
            None => take_input(rects, keys.drop_last(), layers, window_size, resolve),
        }
    }
}

/// Where a layer takes input.
fn resolve_hit_rect<F: Fn(PercentLength, u32) -> i32>(
    layer: u32,
    input: Option<LayerInputRect>,
    position: (i32, i32),
    texture_size: (u32, u32),
    window_size: (u32, u32),
    resolve: &F,
) -> (rect: LayerRect)
    requires
        forall|length: PercentLength, whole: u32| call_requires(*resolve, (length, whole)),
    ensures
        takes_input(rect, layer, input, position, texture_size, window_size, *resolve),
{
    match input {
        Some(area) => (
            layer,
            resolve(area.x, window_size.0),
            resolve(area.y, window_size.1),
            area.width,
            area.height,
        ),
        None => (layer, position.0, position.1, texture_size.0, texture_size.1),
    }
}

/// An increasing sequence of numbers increases from each place to every later one.
proof fn lemma_increasing(keys: Seq<&u32>)
    requires
        vstd::std_specs::btree::increasing_seq(keys),
    ensures
        forall|i: int, j: int| 0 <= i < j < keys.len() ==> *keys[i] < *keys[j],
{
    assert(vstd::laws_cmp::obeys_cmp::<&u32>());
    assert forall|i: int, j: int| 0 <= i < j < keys.len() implies *keys[i] < *keys[j] by {
        assert(OrdSpec::cmp_spec(&keys[i], &keys[j]) is Less);
    }
}

/// Keys of a table of layers, in ascending order.
pub fn layer_keys(layers: &BTreeMap<u32, LayerState>) -> (keys: Vec<u32>)
    ensures
        lists(keys@, layers@),
{
    let mut keys: Vec<u32> = Vec::new();
    let ghost all = vstd::std_specs::btree::spec_keys_iter(layers).remaining();
    for key in iter: layers.keys()
        invariant
            all == iter.seq(),
            keys@ == all.unref().take(iter.index() as int),
    {
        keys.push(*key);
    }
    proof {
        assert(keys@ =~= all.unref());
        assert(all.unref().to_set() == layers@.dom());
        assert forall|key: u32| keys@.contains(key) <==> layers@.contains_key(key) by {
            assert(keys@.contains(key) <==> keys@.to_set().contains(key));
        }
        lemma_increasing(all);
    }
    keys
}

impl RenderState {
    /// The state of a window that was just found.
    pub open spec fn fresh(window_size: (u32, u32)) -> RenderState {
        RenderState {
            position: (0, 0),
            window_size,
            surface: SurfaceState::fresh(),
            renderer: None,
            layers: Map::empty(),
            layer0_pos_pct: None,
            layer0_input_rect: None,
        }
    }

    /// The state with everything that clients set taken back.
    pub open spec fn after_reset(self) -> RenderState {
        RenderState {
            position: (0, 0),
            surface: SurfaceState::fresh(),
            layers: Map::empty(),
            layer0_pos_pct: None,
            layer0_input_rect: None,
            ..self
        }
    }

    /// Layer 0 stands apart: the table holds the layers from 1 on.
    pub open spec fn wf(self) -> bool {
        !self.layers.contains_key(0)
    }

    /// Whether there is a layer. Layer 0 always is.
    pub open spec fn has_layer(self, layer: u32) -> bool {
        layer == 0 || self.layers.contains_key(layer)
    }

    /// The surface of a layer.
    pub open spec fn surface_of(self, layer: u32) -> SurfaceState {
        if layer == 0 {
            self.surface
        } else {
            self.layers[layer].surface
        }
    }

    /// The place of a layer.
    pub open spec fn position_of(self, layer: u32) -> (i32, i32) {
        if layer == 0 {
            self.position
        } else {
            self.layers[layer].position
        }
    }

    /// Whether a layer has a surface.
    pub open spec fn live(self, layer: u32) -> bool {
        self.has_layer(layer) && self.surface_of(layer).inner is Some
    }

    /// A layer from 1 on; one that was not set yet is empty.
    pub open spec fn layer(self, layer: u32) -> LayerState {
        if self.layers.contains_key(layer) {
            self.layers[layer]
        } else {
            LayerState::fresh()
        }
    }

    /// The state with another layer in the place of a layer from 1 on.
    pub open spec fn with_layer(self, layer: u32, state: LayerState) -> RenderState {
        RenderState { layers: self.layers.insert(layer, state), ..self }
    }

    /// The state with another surface in a layer. A layer whose surface is taken
    /// away forgets where it takes input; from 1 on, also its place.
    pub open spec fn with_surface(
        self,
        layer: u32,
        surface: SurfaceState,
        cleared: bool,
    ) -> RenderState {
        if layer == 0 {
            RenderState {
                surface,
                layer0_input_rect: if cleared {
                    None
                } else {
                    self.layer0_input_rect
                },
                ..self
            }
        } else if cleared {
            self.with_layer(
                layer,
                LayerState { surface, position: (0, 0), pos_pct: None, input_rect: None },
            )
        } else {
            self.with_layer(layer, LayerState { surface, ..self.layer(layer) })
        }
    }

    /// The state with a place asked for a layer.
    pub open spec fn with_place(
        self,
        layer: u32,
        place: (PercentLength, PercentLength),
    ) -> RenderState {
        if layer == 0 {
            RenderState { layer0_pos_pct: Some(place), ..self }
        } else {
            self.with_layer(layer, LayerState { pos_pct: Some(place), ..self.layer(layer) })
        }
    }

    /// The state with another place where a layer takes input.
    pub open spec fn with_input_rect(
        self,
        layer: u32,
        rect: Option<LayerInputRect>,
    ) -> RenderState {
        if layer == 0 {
            RenderState { layer0_input_rect: rect, ..self }
        } else {
            self.with_layer(layer, LayerState { input_rect: rect, ..self.layer(layer) })
        }
    }

    /// The state in which every change was announced.
    pub open spec fn announced(self) -> RenderState {
        RenderState {
            surface: self.surface.announced(),
            layers: self.layers.map_values(
                |layer: LayerState| LayerState { surface: layer.surface.announced(), ..layer },
            ),
            ..self
        }
    }

    /// How the window is drawn, where `keys` lists its layers.
    pub open spec fn drawing(self, keys: Seq<u32>) -> Seq<DrawnLayer> {
        drawn(0, self.surface, self.position) + drawn_layers(keys, self.layers)
    }
}

impl RenderData {
    /// Nothing is drawn yet.
    pub fn new(window_size: (u32, u32)) -> (data: RenderData)
        ensures
            data@ == RenderState::fresh(window_size),
            data@.wf(),
    {
        RenderData {
            position: (0, 0),
            window_size,
            surface: SurfaceState::new(),
            renderer: None,
            layers: BTreeMap::new(),
            layer0_pos_pct: None,
            layer0_input_rect: None,
        }
    }

    /// Takes back what clients set.
    pub fn reset(&mut self)
        ensures
            final(self)@ == old(self)@.after_reset(),
            final(self)@.wf(),
    {
        self.surface = SurfaceState::new();
        self.position = (0, 0);
        self.layers.clear();
        self.layer0_pos_pct = None;
        self.layer0_input_rect = None;
    }

    /// A layer from 1 on.
    fn layer_or_new(&self, layer: u32) -> (state: LayerState)
        ensures
            state == self@.layer(layer),
    {
        match self.layers.get(&layer) {
            Some(state) => *state,
            None => LayerState::new(),
        }
    }

    /// Replaces the surface of layer 0.
    pub fn update_surface<E>(
        &mut self,
        handle: Option<SharedHandle>,
        open: impl FnOnce(SharedHandle) -> Result<OverlaySurface, E>,
    ) -> (done: Result<(), E>)
        requires
            handle matches Some(handle) ==> call_requires(open, (handle,)),
        ensures
            exists|surface: SurfaceState|
                surface_update(handle, open, surface, done) && final(self)@ == #[trigger] old(
                    self,
                )@.with_surface(0, surface, handle is None),
            old(self)@.wf() ==> final(self)@.wf(),
    {
        self.update_layer(0, handle, open)
    }

    /// Replaces the surface of a layer; without a handle the layer is cleared.
    pub fn update_layer<E>(
        &mut self,
        layer: u32,
        handle: Option<SharedHandle>,
        open: impl FnOnce(SharedHandle) -> Result<OverlaySurface, E>,
    ) -> (done: Result<(), E>)
        requires
            handle matches Some(handle) ==> call_requires(open, (handle,)),
        ensures
            exists|surface: SurfaceState|
                surface_update(handle, open, surface, done) && final(self)@ == #[trigger] old(
                    self,
                )@.with_surface(layer, surface, handle is None),
            handle is None ==> done is Ok && final(self)@ == old(self)@.with_surface(
                layer,
                SurfaceState::fresh(),
                true,
            ),
            old(self)@.wf() ==> final(self)@.wf(),
    {
        if layer == 0 {
            let done = self.surface.update(handle, open);
            if handle.is_none() {
                self.layer0_input_rect = None;
            }
            assert(self@ =~= old(self)@.with_surface(0, self.surface, handle is None));
            done
        } else {
            let mut state = self.layer_or_new(layer);
            let done = state.surface.update(handle, open);
            let ghost surface = state.surface;
            if handle.is_none() {
                state.pos_pct = None;
                state.position = (0, 0);
                state.input_rect = None;
            }
            self.layers.insert(layer, state);
            assert(self@ =~= old(self)@.with_surface(layer, surface, handle is None));
            done
        }
    }

    /// Asks for a place of a layer, relative to the window.
    pub fn set_layer_position_pct(&mut self, layer: u32, x: PercentLength, y: PercentLength)
        ensures
            final(self)@ == old(self)@.with_place(layer, (x, y)),
            old(self)@.wf() ==> final(self)@.wf(),
    {
        if layer == 0 {
            self.layer0_pos_pct = Some((x, y));
        } else {
            let mut state = self.layer_or_new(layer);
            state.pos_pct = Some((x, y));
            self.layers.insert(layer, state);
        }
    }

    /// Sets where a layer takes input; without a rect it is where it is drawn.
    pub fn set_layer_input_rect(&mut self, layer: u32, rect: Option<LayerInputRect>)
        ensures
            final(self)@ == old(self)@.with_input_rect(layer, rect),
            old(self)@.wf() ==> final(self)@.wf(),
    {
        if layer == 0 {
            self.layer0_input_rect = rect;
        } else {
            let mut state = self.layer_or_new(layer);
            state.input_rect = rect;
            self.layers.insert(layer, state);
        }
    }

    /// Has the surface of layer 0 announced again.
    pub fn invalidate_surface(&mut self)
        ensures
            final(self)@ == (RenderState {
                surface: SurfaceState { updated: true, ..old(self)@.surface },
                ..old(self)@
            }),
            old(self)@.wf() ==> final(self)@.wf(),
    {
        self.surface.updated = true;
    }

    /// The layers to draw, from the lowest to the highest, with the changes that
    /// were not announced yet. A layer without a surface is drawn once, empty.
    pub fn draw_layers(&mut self) -> (out: Vec<DrawnLayer>)
        ensures
            exists|keys: Seq<u32>|
                lists(keys, old(self)@.layers) && out@ == #[trigger] old(self)@.drawing(keys),
            final(self)@ == old(self)@.announced(),
            old(self)@.wf() ==> final(self)@.wf() && ascends(out@),
    {
        let mut out: Vec<DrawnLayer> = Vec::new();
        let update = self.surface.take_update();
        if let Some(surface) = self.surface.get() {
            out.push((0, update, self.position, surface.size));
        } else if update.is_some() {
            out.push((0, update, (0, 0), (0, 0)));
        }
        let keys = layer_keys(&self.layers);
        let ghost first = drawn(0, old(self)@.surface, old(self)@.position);
        assert(out@ =~= first);
        let mut i: usize = 0;
        while i < keys.len()
            invariant
                i <= keys@.len(),
                lists(keys@, old(self)@.layers),
                first == drawn(0, old(self)@.surface, old(self)@.position),
                out@ == first + drawn_layers(keys@.take(i as int), old(self)@.layers),
                self.layers@.dom() =~= old(self)@.layers.dom(),
                forall|j: int|
                    0 <= j < i ==> (#[trigger] self.layers@[keys@[j]]) == (LayerState {
                        surface: old(self)@.layers[keys@[j]].surface.announced(),
                        ..old(self)@.layers[keys@[j]]
                    }),
                forall|j: int|
                    i <= j < keys@.len() ==> #[trigger] self.layers@[keys@[j]] == old(
                        self,
                    )@.layers[keys@[j]],
                self.position == old(self).position,
                self.window_size == old(self).window_size,
                self.surface == old(self).surface.announced(),
                self.renderer == old(self).renderer,
                self.layer0_pos_pct == old(self).layer0_pos_pct,
                self.layer0_input_rect == old(self).layer0_input_rect,
            decreases keys@.len() - i,
        {
            let key: u32 = keys[i];
            assert(keys@.contains(key));
            let ghost before = out@;
            let mut layer = self.layer_or_new(key);
            let ghost original = layer;
            assert(self.layers@[keys@[i as int]] == old(self)@.layers[key]);
            let update = layer.surface.take_update();
            if let Some(surface) = layer.surface.get() {
                out.push((key, update, layer.position, surface.size));
            } else if update.is_some() {
                out.push((key, update, (0, 0), (0, 0)));
            }
            self.layers.insert(key, layer);
            proof {
                assert(out@ =~= before + drawn(key, original.surface, original.position));
                assert(keys@.take(i + 1).drop_last() =~= keys@.take(i as int));
                assert(out@ =~= first + drawn_layers(keys@.take(i + 1), old(self)@.layers));
            }
            i += 1;
        }
        proof {
            assert(keys@.take(i as int) =~= keys@);
            assert(out@ == old(self)@.drawing(keys@));
            let want = old(self)@.announced();
            assert forall|key: u32| want.layers.contains_key(key) implies self.layers@[key]
                == want.layers[key] by {
                assert(keys@.contains(key));
                let j = keys@.index_of(key);
                assert(self.layers@[keys@[j]] == want.layers[keys@[j]]);
            }
            assert(self.layers@ =~= want.layers);
            if old(self)@.wf() {
                lemma_drawing(old(self)@, keys@);
            }
        }
        out
    }

    /// Where the layers take input, from the lowest to the highest: their input
    /// rects, or else where they are drawn. `resolve` turns a length into
    /// pixels, within the given whole.
    pub fn layer_rects<F: Fn(PercentLength, u32) -> i32>(&self, resolve: &F) -> (rects: Vec<
        LayerRect,
    >)
        requires
            forall|length: PercentLength, whole: u32| call_requires(*resolve, (length, whole)),
        ensures
            self@.rects_are(rects@, *resolve),
            self@.wf() ==> rects_ascend(rects@),
    {
        let mut rects: Vec<LayerRect> = Vec::new();
        if let Some(surface) = self.surface.get() {
            rects.push(
                resolve_hit_rect(
                    0,
                    self.layer0_input_rect,
                    self.position,
                    surface.size,
                    self.window_size,
                    resolve,
                ),
            );
        }
        let ghost first = rects@;
        let ghost mut rest: Seq<LayerRect> = Seq::empty();
        let keys = layer_keys(&self.layers);
        let mut i: usize = 0;
        assert(rects@ =~= first + rest);
        while i < keys.len()
            invariant
                i <= keys@.len(),
                lists(keys@, self.layers@),
                forall|length: PercentLength, whole: u32| call_requires(*resolve, (length, whole)),
                rects@ == first + rest,
                take_input(
                    rest,
                    keys@.take(i as int),
                    self.layers@,
                    self.window_size,
                    *resolve,
                ),
            decreases keys@.len() - i,
        {
            let key: u32 = keys[i];
            assert(keys@.contains(key));
            let layer = self.layer_or_new(key);
            assert(keys@.take(i + 1).drop_last() =~= keys@.take(i as int));
            if let Some(surface) = layer.surface.get() {
                let rect: LayerRect = resolve_hit_rect(
                    key,
                    layer.input_rect,
                    layer.position,
                    surface.size,
                    self.window_size,
                    resolve,
                );
                rects.push(rect);
                proof {
                    assert(rest.push(rect).drop_last() =~= rest);
                    assert(rects@ =~= first + rest.push(rect));
                    rest = rest.push(rect);
                }
            }
            i += 1;
        }
        proof {
            assert(keys@.take(i as int) =~= keys@);
            assert(lists(keys@, self@.layers));
            if self@.surface.inner is Some {
                assert(first.len() == 1);
                assert(first[0] == rects@[0]);
                assert(rects@.skip(1) =~= rest);
                assert(take_input(
                    rects@.skip(1),
                    keys@,
                    self@.layers,
                    self@.window_size,
                    *resolve,
                ));
            } else {
                assert(rects@ =~= rest);
            }
            assert(self@.rects_are(rects@, *resolve));
            if self@.wf() {
                law_layers_take_input_in_order(self@, rects@, *resolve);
            }
        }
        rects
    }
}

impl RenderState {
    /// Whether `rects` are where the layers take input, from the lowest to the
    /// highest.
    pub open spec fn rects_are<F: Fn(PercentLength, u32) -> i32>(
        self,
        rects: Seq<LayerRect>,
        resolve: F,
    ) -> bool {
        exists|keys: Seq<u32>| #[trigger]
            lists(keys, self.layers) && match self.surface.inner {
                Some(surface) => {
                    &&& rects.len() > 0
                    &&& takes_input(
                        rects[0],
                        0,
                        self.layer0_input_rect,
                        self.position,
                        surface.size,
                        self.window_size,
                        resolve,
                    )
                    &&& take_input(rects.skip(1), keys, self.layers, self.window_size, resolve)
                },
                None => take_input(rects, keys, self.layers, self.window_size, resolve),
            }
    }
}

/// Layers are listed in one way only: two lists of the keys of one table in
/// ascending order are the same list.
pub proof fn law_layer_order_is_unique(a: Seq<u32>, b: Seq<u32>, layers: Map<u32, LayerState>)
    requires
        lists(a, layers),
        lists(b, layers),
    ensures
        a == b,
    decreases a.len(),
{
    if a.len() == 0 {
        if b.len() > 0 {
            assert(b.contains(b[0]));
            assert(a.contains(b[0]));
        }
        assert(a =~= b);
    } else {
        assert(a.contains(a.last()));
        assert(b.contains(a.last()));
        let in_b = b.index_of(a.last());
        assert(b.contains(b.last()));
        assert(a.contains(b.last()));
        let in_a = a.index_of(b.last());
        assert(a.last() == b.last()) by {
            if in_b < b.len() - 1 {
                assert(b[in_b] < b[b.len() - 1]);
            }
            if in_a < a.len() - 1 {
                assert(a[in_a] < a[a.len() - 1]);
            }
        }
        let last = a.last();
        let less = layers.remove(last);
        lemma_lists_rest(a, layers);
        lemma_lists_rest(b, layers);
        law_layer_order_is_unique(a.drop_last(), b.drop_last(), less);
        assert(a =~= a.drop_last().push(last));
        assert(b =~= b.drop_last().push(last));
    }
}

proof fn lemma_lists_rest(keys: Seq<u32>, layers: Map<u32, LayerState>)
    requires
        lists(keys, layers),
        keys.len() > 0,
    ensures
        lists(keys.drop_last(), layers.remove(keys.last())),
{
    let rest = keys.drop_last();
    let less = layers.remove(keys.last());
    assert forall|key: u32| rest.contains(key) <==> less.contains_key(key) by {
        if rest.contains(key) {
            let i = rest.index_of(key);
            assert(keys[i] == key);
            assert(keys.contains(key));
            assert(keys[i] < keys[keys.len() - 1]);
        }
        if less.contains_key(key) {
            assert(keys.contains(key));
            let i = keys.index_of(key);
            assert(rest[i] == key);
        }
    }
}

/// The layers of a table are drawn in the order of their keys, each as it is
/// drawn alone.
proof fn lemma_drawn_layers(keys: Seq<u32>, layers: Map<u32, LayerState>)
    requires
        forall|i: int, j: int| 0 <= i < j < keys.len() ==> keys[i] < keys[j],
    ensures
        ascends(drawn_layers(keys, layers)),
        forall|entry: DrawnLayer| #[trigger]
            drawn_layers(keys, layers).contains(entry) <==> keys.contains(entry.0) && drawn(
                entry.0,
                layers[entry.0].surface,
                layers[entry.0].position,
            ) == seq![entry],
    decreases keys.len(),
{
    let list = drawn_layers(keys, layers);
    if keys.len() > 0 {
        let rest = keys.drop_last();
        let last = keys.last();
        let lower = drawn_layers(rest, layers);
        let top = drawn(last, layers[last].surface, layers[last].position);
        lemma_drawn_layers(rest, layers);
        assert(list == lower + top);
        assert forall|i: int| 0 <= i < lower.len() implies (#[trigger] lower[i]).0 < last by {
            assert(lower.contains(lower[i]));
            let k = rest.index_of(lower[i].0);
            assert(keys[k] < keys[keys.len() - 1]);
        }
        assert forall|entry: DrawnLayer| #[trigger]
            list.contains(entry) <==> keys.contains(entry.0) && drawn(
                entry.0,
                layers[entry.0].surface,
                layers[entry.0].position,
            ) == seq![entry] by {
            if list.contains(entry) {
                let i = list.index_of(entry);
                if i < lower.len() {
                    assert(lower[i] == entry);
                    assert(lower.contains(entry));
                    let k = rest.index_of(entry.0);
                    assert(keys[k] == entry.0);
                } else {
                    assert(top[i - lower.len()] == entry);
                    assert(top =~= seq![entry]);
                    assert(keys[keys.len() - 1] == entry.0);
                }
            }
            if keys.contains(entry.0) && drawn(
                entry.0,
                layers[entry.0].surface,
                layers[entry.0].position,
            ) == seq![entry] {
                if entry.0 == last {
                    assert(list[lower.len() as int] == entry);
                } else {
                    let k = keys.index_of(entry.0);
                    assert(rest[k] == entry.0);
                    assert(lower.contains(entry));
                    let i = lower.index_of(entry);
                    assert(list[i] == entry);
                }
            }
        }
    } else {
        assert(list =~= seq![]);
    }
}

/// A window is drawn from its lowest layer to its highest, each as it is drawn
/// alone.
proof fn lemma_drawing(state: RenderState, keys: Seq<u32>)
    requires
        state.wf(),
        lists(keys, state.layers),
    ensures
        ascends(state.drawing(keys)),
        forall|entry: DrawnLayer| #[trigger]
            state.drawing(keys).contains(entry) <==> state.has_layer(entry.0) && drawn(
                entry.0,
                state.surface_of(entry.0),
                state.position_of(entry.0),
            ) == seq![entry],
{
    let list = state.drawing(keys);
    let first = drawn(0, state.surface, state.position);
    let upper = drawn_layers(keys, state.layers);
    lemma_drawn_layers(keys, state.layers);
    assert forall|i: int| 0 <= i < upper.len() implies (#[trigger] upper[i]).0 > 0 by {
        assert(upper.contains(upper[i]));
        assert(keys.contains(upper[i].0));
    }
    assert forall|entry: DrawnLayer| #[trigger]
        list.contains(entry) <==> state.has_layer(entry.0) && drawn(
            entry.0,
            state.surface_of(entry.0),
            state.position_of(entry.0),
        ) == seq![entry] by {
        if list.contains(entry) {
            let i = list.index_of(entry);
            if i < first.len() {
                assert(first[i] == entry);
                assert(first =~= seq![entry]);
            } else {
                assert(upper[i - first.len()] == entry);
                assert(upper.contains(entry));
                assert(keys.contains(entry.0));
            }
        }
        if state.has_layer(entry.0) && drawn(
            entry.0,
            state.surface_of(entry.0),
            state.position_of(entry.0),
        ) == seq![entry] {
            if entry.0 == 0 {
                assert(list[0] == entry);
            } else {
                assert(keys.contains(entry.0));
                assert(upper.contains(entry));
                let i = upper.index_of(entry);
                assert(list[first.len() + i] == entry);
            }
        }
    }
}

/// Layers are drawn from the lowest to the highest, and none twice. Each layer
/// with a surface is drawn, in its place and with the size of its surface. What
/// else is drawn is a layer without a surface, empty and without a handle. Where
/// nothing changed since the last list, only layers with a surface are drawn, and
/// none of them carries a change.
pub proof fn law_layers_are_drawn_in_order(state: RenderState, keys: Seq<u32>)
    requires
        state.wf(),
        lists(keys, state.layers),
    ensures
        ascends(state.drawing(keys)),
        forall|layer: u32| #[trigger]
            state.live(layer) ==> state.drawing(keys).contains(
                (
                    layer,
                    state.surface_of(layer).announcement(),
                    state.position_of(layer),
                    (state.surface_of(layer).inner->0).size,
                ),
            ),
        forall|i: int|
            0 <= i < state.drawing(keys).len() ==> {
                let entry = #[trigger] state.drawing(keys)[i];
                &&& state.has_layer(entry.0)
                &&& state.live(entry.0) ==> entry == (
                    entry.0,
                    state.surface_of(entry.0).announcement(),
                    state.position_of(entry.0),
                    (state.surface_of(entry.0).inner->0).size,
                )
                &&& !state.live(entry.0) ==> entry == (
                    entry.0,
                    Some(UpdateSharedHandle { handle: None }),
                    (0i32, 0i32),
                    (0u32, 0u32),
                )
            },
        lists(keys, state.announced().layers),
        forall|i: int|
            0 <= i < state.announced().drawing(keys).len() ==> {
                let entry = #[trigger] state.announced().drawing(keys)[i];
                state.live(entry.0) && entry.1 is None
            },
        forall|layer: u32| #[trigger]
            state.live(layer) ==> state.announced().drawing(keys).contains(
                (
                    layer,
                    None::<UpdateSharedHandle>,
                    state.position_of(layer),
                    (state.surface_of(layer).inner->0).size,
                ),
            ),
{
    lemma_drawing(state, keys);
    let list = state.drawing(keys);
    assert forall|layer: u32| #[trigger] state.live(layer) implies list.contains(
        (
            layer,
            state.surface_of(layer).announcement(),
            state.position_of(layer),
            (state.surface_of(layer).inner->0).size,
        ),
    ) by {
        let entry = (
            layer,
            state.surface_of(layer).announcement(),
            state.position_of(layer),
            (state.surface_of(layer).inner->0).size,
        );
        assert(drawn(layer, state.surface_of(layer), state.position_of(layer)) =~= seq![entry]);
    }
    assert forall|i: int| 0 <= i < list.len() implies {
        let entry = #[trigger] list[i];
        &&& state.has_layer(entry.0)
        &&& state.live(entry.0) ==> entry == (
            entry.0,
            state.surface_of(entry.0).announcement(),
            state.position_of(entry.0),
            (state.surface_of(entry.0).inner->0).size,
        )
        &&& !state.live(entry.0) ==> entry == (
            entry.0,
            Some(UpdateSharedHandle { handle: None }),
            (0i32, 0i32),
            (0u32, 0u32),
        )
    } by {
        let entry = list[i];
        assert(list.contains(entry));
        let alone = drawn(entry.0, state.surface_of(entry.0), state.position_of(entry.0));
        assert(alone == seq![entry]);
        assert(alone[0] == entry);
    }
    let after = state.announced();
    assert forall|layer: u32| true implies (#[trigger] after.has_layer(layer) == state.has_layer(
        layer,
    )) && (state.has_layer(layer) ==> after.surface_of(layer) == state.surface_of(
        layer,
    ).announced() && after.position_of(layer) == state.position_of(layer)) by {
    }
    assert(after.wf());
    lemma_drawing(after, keys);
    let again = after.drawing(keys);
    assert forall|i: int| 0 <= i < again.len() implies {
        let entry = #[trigger] again[i];
        state.live(entry.0) && entry.1 is None
    } by {
        let entry = again[i];
        assert(again.contains(entry));
        assert(after.has_layer(entry.0));
        let alone = drawn(entry.0, after.surface_of(entry.0), after.position_of(entry.0));
        assert(alone == seq![entry]);
        assert(alone[0] == entry);
    }
    assert forall|layer: u32| #[trigger] state.live(layer) implies again.contains(
        (
            layer,
            None::<UpdateSharedHandle>,
            state.position_of(layer),
            (state.surface_of(layer).inner->0).size,
        ),
    ) by {
        assert(after.has_layer(layer));
        let entry = (
            layer,
            None::<UpdateSharedHandle>,
            state.position_of(layer),
            (state.surface_of(layer).inner->0).size,
        );
        assert(drawn(layer, after.surface_of(layer), after.position_of(layer)) =~= seq![entry]);
    }
}

/// The layers of a table take input in the order of their keys, those with a
/// surface.
proof fn lemma_take_input<F: Fn(PercentLength, u32) -> i32>(
    rects: Seq<LayerRect>,
    keys: Seq<u32>,
    layers: Map<u32, LayerState>,
    window_size: (u32, u32),
    resolve: F,
)
    requires
        forall|i: int, j: int| 0 <= i < j < keys.len() ==> keys[i] < keys[j],
        take_input(rects, keys, layers, window_size, resolve),
    ensures
        rects_ascend(rects),
        forall|i: int|
            0 <= i < rects.len() ==> keys.contains((#[trigger] rects[i]).0)
                && layers[rects[i].0].surface.inner is Some,
        forall|key: u32| #[trigger]
            keys.contains(key) && layers[key].surface.inner is Some ==> exists|i: int|
                0 <= i < rects.len() && (#[trigger] rects[i]).0 == key,
    decreases keys.len(),
{
    if keys.len() > 0 {
        let rest = keys.drop_last();
        let last = keys.last();
        assert(keys[keys.len() - 1] == last);
        let lower = if layers[last].surface.inner is Some {
            rects.drop_last()
        } else {
            rects
        };
        lemma_take_input(lower, rest, layers, window_size, resolve);
        assert forall|i: int| 0 <= i < lower.len() implies keys.contains((#[trigger] rects[i]).0)
            && layers[rects[i].0].surface.inner is Some && rects[i].0 < last by {
            assert(rects[i] == lower[i]);
            let k = rest.index_of(lower[i].0);
            assert(keys[k] == lower[i].0);
            assert(keys[k] < keys[keys.len() - 1]);
        }
        assert forall|i: int, j: int| 0 <= i < j < rects.len() implies (#[trigger] rects[i]).0 < (
        #[trigger] rects[j]).0 by {
            assert(rects[i] == lower[i]);
            if j < lower.len() {
                assert(rects[j] == lower[j]);
            }
        }
        assert forall|key: u32| #[trigger]
            keys.contains(key) && layers[key].surface.inner is Some implies exists|i: int|
            0 <= i < rects.len() && (#[trigger] rects[i]).0 == key by {
            if key == last {
                assert(rects[rects.len() - 1].0 == key);
            } else {
                let k = keys.index_of(key);
                assert(rest[k] == key);
                assert(rest.contains(key));
                let i = choose|i: int| 0 <= i < lower.len() && (#[trigger] lower[i]).0 == key;
                assert(rects[i] == lower[i]);
            }
        }
    }
}

/// Input is looked for in the layers with a surface and in no others, each once,
/// listed from the lowest to the highest.
pub proof fn law_layers_take_input_in_order<F: Fn(PercentLength, u32) -> i32>(
    state: RenderState,
    rects: Seq<LayerRect>,
    resolve: F,
)
    requires
        state.wf(),
        state.rects_are(rects, resolve),
    ensures
        rects_ascend(rects),
        forall|i: int| 0 <= i < rects.len() ==> state.live((#[trigger] rects[i]).0),
        forall|layer: u32| #[trigger]
            state.live(layer) ==> exists|i: int|
                0 <= i < rects.len() && (#[trigger] rects[i]).0 == layer,
{
    let keys = choose|keys: Seq<u32>| #[trigger]
        lists(keys, state.layers) && match state.surface.inner {
            Some(surface) => {
                &&& rects.len() > 0
                &&& takes_input(
                    rects[0],
                    0,
                    state.layer0_input_rect,
                    state.position,
                    surface.size,
                    state.window_size,
                    resolve,
                )
                &&& take_input(rects.skip(1), keys, state.layers, state.window_size, resolve)
            },
            None => take_input(rects, keys, state.layers, state.window_size, resolve),
        };
    let shift: int = if state.surface.inner is Some {
        1
    } else {
        0
    };
    let upper = rects.skip(shift);
    assert(rects.skip(0) =~= rects);
    lemma_take_input(upper, keys, state.layers, state.window_size, resolve);
    assert forall|i: int| shift <= i < rects.len() implies state.live((#[trigger] rects[i]).0)
        && rects[i].0 > 0 by {
        assert(rects[i] == upper[i - shift]);
        assert(keys.contains(rects[i].0));
    }
    assert forall|i: int, j: int| 0 <= i < j < rects.len() implies (#[trigger] rects[i]).0 < (
    #[trigger] rects[j]).0 by {
        assert(rects[j] == upper[j - shift]);
        if i >= shift {
            assert(rects[i] == upper[i - shift]);
        }
    }
    assert forall|layer: u32| #[trigger] state.live(layer) implies exists|i: int|
        0 <= i < rects.len() && (#[trigger] rects[i]).0 == layer by {
        if layer == 0 {
            assert(rects[0].0 == 0);
        } else {
            assert(keys.contains(layer));
            let i = choose|i: int| 0 <= i < upper.len() && (#[trigger] upper[i]).0 == layer;
            assert(rects[i + shift] == upper[i]);
        }
    }
}

/// A layer whose surface is taken away, as `update_layer` without a handle does,
/// is listed exactly once more, empty and without a handle, and then in no list.
/// It forgets where it took input and, from 1 on, its place. All else is left as
/// it was.
pub proof fn law_cleared_layer_is_drawn_once(state: RenderState, layer: u32, keys: Seq<u32>)
    requires
        state.wf(),
        lists(keys, state.with_surface(layer, SurfaceState::fresh(), true).layers),
    ensures
        ({
            let cleared = state.with_surface(layer, SurfaceState::fresh(), true);
            let entry: DrawnLayer = (
                layer,
                Some(UpdateSharedHandle { handle: None }),
                (0i32, 0i32),
                (0u32, 0u32),
            );
            &&& cleared.wf()
            &&& cleared.has_layer(layer) && !cleared.live(layer)
            &&& cleared.drawing(keys).contains(entry)
            &&& forall|i: int|
                0 <= i < cleared.drawing(keys).len() && (#[trigger] cleared.drawing(keys)[i]).0
                    == layer ==> i == cleared.drawing(keys).index_of(entry)
            &&& forall|i: int|
                0 <= i < cleared.announced().drawing(keys).len() ==> (
                #[trigger] cleared.announced().drawing(keys)[i]).0 != layer
            &&& cleared.announced().announced() == cleared.announced()
            &&& layer == 0 ==> cleared.layer0_input_rect is None && cleared.position
                == state.position && cleared.layer0_pos_pct == state.layer0_pos_pct
                && cleared.layers == state.layers
            &&& layer != 0 ==> cleared.layers[layer] == LayerState::fresh() && cleared
                == state.with_layer(layer, LayerState::fresh())
            &&& forall|other: u32|
                other != layer ==> #[trigger] cleared.has_layer(other) == state.has_layer(other)
                    && cleared.surface_of(other) == state.surface_of(other)
                    && cleared.position_of(other) == state.position_of(other)
        }),
{
    let cleared = state.with_surface(layer, SurfaceState::fresh(), true);
    let entry: DrawnLayer = (
        layer,
        Some(UpdateSharedHandle { handle: None }),
        (0i32, 0i32),
        (0u32, 0u32),
    );
    lemma_drawing(cleared, keys);
    assert(drawn(layer, cleared.surface_of(layer), cleared.position_of(layer)) =~= seq![entry]);
    let list = cleared.drawing(keys);
    assert(list.contains(entry));
    let at = list.index_of(entry);
    assert forall|i: int| 0 <= i < list.len() && (#[trigger] list[i]).0 == layer implies i
        == at by {
        assert(list[at].0 == layer);
        if i < at {
            assert(list[i].0 < list[at].0);
        }
        if at < i {
            assert(list[at].0 < list[i].0);
        }
    }
    law_layers_are_drawn_in_order(cleared, keys);
    assert(cleared.announced().announced() =~= cleared.announced()) by {
        assert(cleared.announced().announced().layers =~= cleared.announced().layers);
    }
}

/// A layer whose surface was taken away takes no input, neither before nor after
/// it is drawn again.
pub proof fn law_cleared_layer_takes_no_input<F: Fn(PercentLength, u32) -> i32>(
    state: RenderState,
    layer: u32,
    rects: Seq<LayerRect>,
    resolve: F,
)
    requires
        state.wf(),
        ({
            let cleared = state.with_surface(layer, SurfaceState::fresh(), true);
            cleared.rects_are(rects, resolve) || cleared.announced().rects_are(rects, resolve)
        }),
    ensures
        forall|i: int| 0 <= i < rects.len() ==> (#[trigger] rects[i]).0 != layer,
{
    let cleared = state.with_surface(layer, SurfaceState::fresh(), true);
    if cleared.rects_are(rects, resolve) {
        law_layers_take_input_in_order(cleared, rects, resolve);
    } else {
        law_layers_take_input_in_order(cleared.announced(), rects, resolve);
    }
}

/// A change is announced once: once everything was drawn, what is drawn next
/// carries no announcement.
pub proof fn law_changes_are_announced_once(state: RenderState, keys: Seq<u32>, i: int)
    requires
        lists(keys, state.layers),
        0 <= i < state.announced().drawing(keys).len(),
    ensures
        state.announced().drawing(keys)[i].1 is None,
{
    lemma_announced_layers(state, keys);
}

proof fn lemma_announced_layers(state: RenderState, keys: Seq<u32>)
    requires
        forall|key: u32| keys.contains(key) ==> state.layers.contains_key(key),
    ensures
        forall|i: int|
            0 <= i < drawn_layers(keys, state.announced().layers).len() ==> (
            #[trigger] drawn_layers(keys, state.announced().layers)[i]).1 is None,
    decreases keys.len(),
{
    if keys.len() > 0 {
        assert forall|key: u32| keys.drop_last().contains(key) implies state.layers.contains_key(
            key,
        ) by {
            let i = keys.drop_last().index_of(key);
            assert(keys[i] == key);
            assert(keys.contains(key));
        }
        lemma_announced_layers(state, keys.drop_last());
        assert(keys.contains(keys.last()));
    }
}

/// Every list of layers shows what is there: each layer with a surface comes once,
/// at its place and in the size of its surface, and the list names the handle of a
/// surface that was not listed before. A layer that lost its surface since the last
/// list comes as an empty one without a handle. The list ascends, and afterwards
/// nothing but the marks of what is new has changed.
pub proof fn law_list_shows_every_surface(data: &mut RenderData, list: Vec<DrawnLayer>, layer: u32)
    requires
        !data.layers@.contains_key(0),
        call_ensures(RenderData::draw_layers, (data,), list),
    ensures
        forall|i: int, j: int|
            0 <= i < j < list@.len() ==> (#[trigger] list@[i]).0 < (#[trigger] list@[j]).0,
        ({
            let there = layer == 0 || old(data).layers@.contains_key(layer);
            let surface = if layer == 0 {
                old(data).surface
            } else {
                old(data).layers@[layer].surface
            };
            let position = if layer == 0 {
                old(data).position
            } else {
                old(data).layers@[layer].position
            };
            &&& there && surface.inner is Some && surface.updated ==> list@.contains(
                (
                    layer,
                    Some(UpdateSharedHandle { handle: Some((surface.inner->0).handle) }),
                    position,
                    (surface.inner->0).size,
                ),
            )
            &&& there && surface.inner is Some && !surface.updated ==> list@.contains(
                (layer, None::<UpdateSharedHandle>, position, (surface.inner->0).size),
            )
            &&& there && surface.inner is None && surface.updated ==> list@.contains(
                (
                    layer,
                    Some(UpdateSharedHandle { handle: None::<SharedHandle> }),
                    (0i32, 0i32),
                    (0u32, 0u32),
                ),
            )
            &&& !there || (surface.inner is None && !surface.updated) ==> forall|i: int|
                0 <= i < list@.len() ==> (#[trigger] list@[i]).0 != layer
        }),
        final(data).surface == (SurfaceState { updated: false, inner: old(data).surface.inner }),
        final(data).position == old(data).position,
        final(data).window_size == old(data).window_size,
        final(data).renderer == old(data).renderer,
        final(data).layer0_pos_pct == old(data).layer0_pos_pct,
        final(data).layer0_input_rect == old(data).layer0_input_rect,
        final(data).layers@.contains_key(layer) == old(data).layers@.contains_key(layer),
        old(data).layers@.contains_key(layer) ==> final(data).layers@[layer] == (LayerState {
            surface: SurfaceState {
                inner: old(data).layers@[layer].surface.inner,
                updated: false,
            },
            position: old(data).layers@[layer].position,
            pos_pct: old(data).layers@[layer].pos_pct,
            input_rect: old(data).layers@[layer].input_rect,
        }),
{
    let state = old(data)@;
    let keys = choose|keys: Seq<u32>|
        lists(keys, state.layers) && list@ == #[trigger] state.drawing(keys);
    lemma_drawing(state, keys);
    let surface = state.surface_of(layer);
    let position = state.position_of(layer);
    let alone = drawn(layer, surface, position);
    if state.has_layer(layer) && alone.len() > 0 {
        assert(alone =~= seq![alone[0]]);
        assert(list@.contains(alone[0]));
    } else {
        assert forall|i: int| 0 <= i < list@.len() implies (#[trigger] list@[i]).0 != layer by {
            assert(list@.contains(list@[i]));
        }
    }
}

/// A layer that gets a surface is named by that surface's own handle in the next
/// list, and in none after it until it changes again; it is listed in the size that
/// the surface was opened with.
pub proof fn law_new_surface_is_named_once<
    E,
    O: FnOnce(SharedHandle) -> Result<OverlaySurface, E>,
>(
    data: &mut RenderData,
    next: &mut RenderData,
    after: &mut RenderData,
    layer: u32,
    handle: SharedHandle,
    open: O,
    first: Vec<DrawnLayer>,
    second: Vec<DrawnLayer>,
)
    requires
        !data.layers@.contains_key(0),
        call_ensures(RenderData::update_layer, (data, layer, Some(handle), open), Ok::<(), E>(())),
        *next == *final(data),
        call_ensures(RenderData::draw_layers, (next,), first),
        *after == *final(next),
        call_ensures(RenderData::draw_layers, (after,), second),
    ensures
        exists|surface: OverlaySurface, position: (i32, i32)|
            {
                &&& #[trigger] call_ensures(open, (handle,), Ok::<OverlaySurface, E>(surface))
                &&& #[trigger] first@.contains(
                    (
                        layer,
                        Some(UpdateSharedHandle { handle: Some(surface.handle) }),
                        position,
                        surface.size,
                    ),
                )
                &&& second@.contains((layer, None::<UpdateSharedHandle>, position, surface.size))
            },
{
    law_surface_goes_to_its_layer(data, layer, Some(handle), open, Ok::<(), E>(()));
    law_list_shows_every_surface(next, first, layer);
    law_list_shows_every_surface(after, second, layer);
    let surface = if layer == 0 {
        final(data).surface.inner->0
    } else {
        final(data).layers@[layer].surface.inner->0
    };
    let position = if layer == 0 {
        final(data).position
    } else {
        final(data).layers@[layer].position
    };
    assert(call_ensures(open, (handle,), Ok::<OverlaySurface, E>(surface)));
    assert(first@.contains(
        (
            layer,
            Some(UpdateSharedHandle { handle: Some(surface.handle) }),
            position,
            surface.size,
        ),
    ));
}

/// A surface goes to the layer that it is for and to no other: what opening gave is
/// what the layer holds, unseen. A layer without a handle, or whose surface does not
/// open, holds none. Without a handle a layer also forgets where it takes input,
/// and from 1 on its place.
pub proof fn law_surface_goes_to_its_layer<
    E,
    O: FnOnce(SharedHandle) -> Result<OverlaySurface, E>,
>(
    data: &mut RenderData,
    layer: u32,
    handle: Option<SharedHandle>,
    open: O,
    done: Result<(), E>,
)
    requires
        call_ensures(RenderData::update_layer, (data, layer, handle, open), done),
    ensures
        ({
            let surface = if layer == 0 {
                final(data).surface
            } else {
                final(data).layers@[layer].surface
            };
            &&& surface.updated
            &&& handle is None ==> done is Ok && surface.inner is None
            &&& handle is Some && done is Ok ==> surface.inner is Some && call_ensures(
                open,
                (handle->0,),
                Ok::<OverlaySurface, E>(surface.inner->0),
            )
            &&& done is Err ==> handle is Some && surface.inner is None && call_ensures(
                open,
                (handle->0,),
                Err::<OverlaySurface, E>(done->Err_0),
            )
        }),
        layer == 0 ==> {
            &&& final(data).layers@ == old(data).layers@
            &&& final(data).layer0_input_rect == (if handle is None {
                None
            } else {
                old(data).layer0_input_rect
            })
        },
        layer != 0 ==> {
            let had = old(data).layers@.contains_key(layer);
            &&& final(data).surface == old(data).surface
            &&& final(data).layer0_input_rect == old(data).layer0_input_rect
            &&& final(data).layers@.contains_key(layer)
            &&& final(data).layers@[layer].position == (if handle is Some && had {
                old(data).layers@[layer].position
            } else {
                (0i32, 0i32)
            })
            &&& final(data).layers@[layer].pos_pct == (if handle is Some && had {
                old(data).layers@[layer].pos_pct
            } else {
                None
            })
            &&& final(data).layers@[layer].input_rect == (if handle is Some && had {
                old(data).layers@[layer].input_rect
            } else {
                None
            })
            &&& forall|other: u32|
                other != layer ==> #[trigger] final(data).layers@.contains_key(other) == old(
                    data,
                ).layers@.contains_key(other) && (old(data).layers@.contains_key(other)
                    ==> final(data).layers@[other] == old(data).layers@[other])
        },
        final(data).position == old(data).position,
        final(data).window_size == old(data).window_size,
        final(data).renderer == old(data).renderer,
        final(data).layer0_pos_pct == old(data).layer0_pos_pct,
{
    let surface = choose|surface: SurfaceState|
        surface_update(handle, open, surface, done) && final(data)@ == #[trigger] old(
            data,
        )@.with_surface(layer, surface, handle is None);
    assert(final(data)@ == old(data)@.with_surface(layer, surface, handle is None));
}

/// Replacing the surface of layer 0 is replacing that of the layer with that number.
pub proof fn law_shell_surface_is_layer_zero<
    E,
    O: FnOnce(SharedHandle) -> Result<OverlaySurface, E>,
>(data: &mut RenderData, handle: Option<SharedHandle>, open: O, done: Result<(), E>)
    requires
        call_ensures(RenderData::update_surface, (data, handle, open), done),
    ensures
        final(data).surface.updated,
        handle is None ==> done is Ok && final(data).surface.inner is None && final(data).layer0_input_rect is None,
        handle is Some && done is Ok ==> final(data).surface.inner is Some && call_ensures(
            open,
            (handle->0,),
            Ok::<OverlaySurface, E>(final(data).surface.inner->0),
        ),
        handle is Some ==> final(data).layer0_input_rect == old(data).layer0_input_rect,
        done is Err ==> final(data).surface.inner is None,
        final(data).layers@ == old(data).layers@,
        final(data).position == old(data).position,
        final(data).layer0_pos_pct == old(data).layer0_pos_pct,
        final(data).window_size == old(data).window_size,
{
    let surface = choose|surface: SurfaceState|
        surface_update(handle, open, surface, done) && final(data)@ == #[trigger] old(
            data,
        )@.with_surface(0, surface, handle is None);
    assert(final(data)@ == old(data)@.with_surface(0, surface, handle is None));
}

/// A surface tells of itself once: a change that was not told yet is told with the
/// handle of the surface that is there, and without one where there is none; then
/// nothing is left to tell, whichever way it was told.
pub proof fn law_surface_is_told_once(
    surface: &mut SurfaceState,
    again: &mut SurfaceState,
    other: &mut SurfaceState,
    told: Option<UpdateSharedHandle>,
    retold: Option<UpdateSharedHandle>,
    changed: bool,
)
    requires
        call_ensures(SurfaceState::take_update, (surface,), told),
        *again == *final(surface),
        call_ensures(SurfaceState::take_update, (again,), retold),
        *other == *old(surface),
        call_ensures(SurfaceState::invalidate_update, (other,), changed),
    ensures
        told is Some == old(surface).updated,
        changed == old(surface).updated,
        told is Some && old(surface).inner is Some ==> (told->0).handle == Some(
            (old(surface).inner->0).handle,
        ),
        told is Some && old(surface).inner is None ==> (told->0).handle is None,
        retold is None,
        final(surface).inner == old(surface).inner,
        !final(surface).updated,
        *final(other) == *final(surface),
        *final(again) == *final(surface),
{
}

/// What a client sets of a layer, and nothing else, is what changes: the place that
/// is asked for, in this order of coordinates, and where the layer takes input.
pub proof fn law_layer_settings_are_kept(
    data: &mut RenderData,
    other: &mut RenderData,
    layer: u32,
    x: PercentLength,
    y: PercentLength,
    rect: Option<LayerInputRect>,
)
    requires
        call_ensures(RenderData::set_layer_position_pct, (data, layer, x, y), ()),
        call_ensures(RenderData::set_layer_input_rect, (other, layer, rect), ()),
    ensures
        layer == 0 ==> final(data).layer0_pos_pct == Some((x, y)) && final(data).layers@ == old(
            data,
        ).layers@,
        layer != 0 ==> final(data).layer0_pos_pct == old(data).layer0_pos_pct && final(data).layers@.contains_key(layer) && final(data).layers@[layer].pos_pct == Some((x, y)),
        layer != 0 && old(data).layers@.contains_key(layer) ==> {
            &&& final(data).layers@[layer].surface == old(data).layers@[layer].surface
            &&& final(data).layers@[layer].position == old(data).layers@[layer].position
            &&& final(data).layers@[layer].input_rect == old(data).layers@[layer].input_rect
        },
        final(data).surface == old(data).surface,
        final(data).position == old(data).position,
        final(data).layer0_input_rect == old(data).layer0_input_rect,
        layer == 0 ==> final(other).layer0_input_rect == rect && final(other).layers@ == old(
            other,
        ).layers@,
        layer != 0 ==> final(other).layer0_input_rect == old(other).layer0_input_rect && final(other).layers@.contains_key(layer) && final(other).layers@[layer].input_rect == rect,
        layer != 0 && old(other).layers@.contains_key(layer) ==> {
            &&& final(other).layers@[layer].surface == old(other).layers@[layer].surface
            &&& final(other).layers@[layer].position == old(other).layers@[layer].position
            &&& final(other).layers@[layer].pos_pct == old(other).layers@[layer].pos_pct
        },
        layer != 0 && !old(other).layers@.contains_key(layer) ==> final(other).layers@[layer].surface.inner is None && final(other).layers@[layer].pos_pct is None,
        final(other).surface == old(other).surface,
        final(other).position == old(other).position,
        final(other).layer0_pos_pct == old(other).layer0_pos_pct,
        forall|key: u32|
            key != layer ==> #[trigger] final(data).layers@.contains_key(key) == old(
                data,
            ).layers@.contains_key(key) && (old(data).layers@.contains_key(key) ==> final(data).layers@[key] == old(data).layers@[key]),
        forall|key: u32|
            key != layer ==> #[trigger] final(other).layers@.contains_key(key) == old(
                other,
            ).layers@.contains_key(key) && (old(other).layers@.contains_key(key) ==> final(other).layers@[key] == old(other).layers@[key]),
{
    assert(final(data)@ == old(data)@.with_place(layer, (x, y)));
    assert(final(other)@ == old(other)@.with_input_rect(layer, rect));
}

/// A window that was just found, and one that was taken back, hold nothing of any
/// client: no surface, which is still to be told, no layers, no places. Taking back
/// leaves the size and the interface of the window.
pub proof fn law_nothing_is_left_after_a_reset(
    fresh: RenderData,
    size: (u32, u32),
    data: &mut RenderData,
    layer: u32,
)
    requires
        call_ensures(RenderData::new, (size,), fresh),
        call_ensures(RenderData::reset, (data,), ()),
    ensures
        fresh.window_size == size,
        fresh.renderer is None,
        final(data).window_size == old(data).window_size,
        final(data).renderer == old(data).renderer,
        fresh.surface.inner is None && fresh.surface.updated && fresh.position == (0i32, 0i32),
        final(data).surface.inner is None && final(data).surface.updated && final(data).position
            == (0i32, 0i32),
        !fresh.layers@.contains_key(layer) && !final(data).layers@.contains_key(layer),
        fresh.layer0_pos_pct is None && fresh.layer0_input_rect is None,
        final(data).layer0_pos_pct is None && final(data).layer0_input_rect is None,
{
    assert(final(data)@ == old(data)@.after_reset());
    assert(fresh@ == RenderState::fresh(size));
}

/// Asking for the surface of layer 0 to be told again has the next list name it,
/// and changes nothing else.
pub proof fn law_invalidated_surface_is_told_again(
    data: &mut RenderData,
    next: &mut RenderData,
    list: Vec<DrawnLayer>,
)
    requires
        !data.layers@.contains_key(0),
        data.surface.inner is Some,
        call_ensures(RenderData::invalidate_surface, (data,), ()),
        *next == *final(data),
        call_ensures(RenderData::draw_layers, (next,), list),
    ensures
        list@.contains(
            (
                0u32,
                Some(UpdateSharedHandle { handle: Some((old(data).surface.inner->0).handle) }),
                old(data).position,
                (old(data).surface.inner->0).size,
            ),
        ),
        final(data).layers@ == old(data).layers@,
        final(data).surface.inner == old(data).surface.inner,
        final(data).layer0_pos_pct == old(data).layer0_pos_pct,
        final(data).layer0_input_rect == old(data).layer0_input_rect,
{
    assert(final(data)@.position == old(data)@.position);
    assert(final(data)@.layers == old(data)@.layers);
    law_list_shows_every_surface(next, list, 0);
}

/// Every rect of the layers of a table is where its layer takes input.
proof fn lemma_rects_fit<F: Fn(PercentLength, u32) -> i32>(
    rects: Seq<LayerRect>,
    keys: Seq<u32>,
    layers: Map<u32, LayerState>,
    window_size: (u32, u32),
    resolve: F,
)
    requires
        take_input(rects, keys, layers, window_size, resolve),
    ensures
        forall|i: int|
            0 <= i < rects.len() ==> takes_input(
                #[trigger] rects[i],
                rects[i].0,
                layers[rects[i].0].input_rect,
                layers[rects[i].0].position,
                (layers[rects[i].0].surface.inner->0).size,
                window_size,
                resolve,
            ),
    decreases keys.len(),
{
    if keys.len() > 0 {
        let last = keys.last();
        if layers[last].surface.inner is Some {
            let lower = rects.drop_last();
            lemma_rects_fit(lower, keys.drop_last(), layers, window_size, resolve);
            assert forall|i: int| 0 <= i < rects.len() implies takes_input(
                #[trigger] rects[i],
                rects[i].0,
                layers[rects[i].0].input_rect,
                layers[rects[i].0].position,
                (layers[rects[i].0].surface.inner->0).size,
                window_size,
                resolve,
            ) by {
                if i < lower.len() {
                    assert(rects[i] == lower[i]);
                }
            }
        } else {
            lemma_rects_fit(rects, keys.drop_last(), layers, window_size, resolve);
        }
    }
}

/// A listed rect is where its layer takes input: where it is drawn, or the rect that
/// was set for it.
pub proof fn lemma_rect_of_layer<F: Fn(PercentLength, u32) -> i32>(
    state: RenderState,
    rects: Seq<LayerRect>,
    resolve: F,
    i: int,
)
    requires
        state.wf(),
        state.rects_are(rects, resolve),
        0 <= i < rects.len(),
    ensures
        ({
            let (layer, x, y, width, height) = rects[i];
            let input = if layer == 0 {
                state.layer0_input_rect
            } else {
                state.layers[layer].input_rect
            };
            let position = if layer == 0 {
                state.position
            } else {
                state.layers[layer].position
            };
            let surface = if layer == 0 {
                state.surface.inner
            } else {
                state.layers[layer].surface.inner
            };
            &&& layer == 0 || state.layers.contains_key(layer)
            &&& surface is Some
            &&& input is None ==> x == position.0 && y == position.1 && width == (
            surface->0).size.0 && height == (surface->0).size.1
            &&& input is Some ==> {
                &&& call_ensures(resolve, ((input->0).x, state.window_size.0), x)
                &&& call_ensures(resolve, ((input->0).y, state.window_size.1), y)
                &&& width == (input->0).width
                &&& height == (input->0).height
            }
        }),
{
    law_layers_take_input_in_order(state, rects, resolve);
    let keys = choose|keys: Seq<u32>| #[trigger]
        lists(keys, state.layers) && match state.surface.inner {
            Some(surface) => {
                &&& rects.len() > 0
                &&& takes_input(
                    rects[0],
                    0,
                    state.layer0_input_rect,
                    state.position,
                    surface.size,
                    state.window_size,
                    resolve,
                )
                &&& take_input(rects.skip(1), keys, state.layers, state.window_size, resolve)
            },
            None => take_input(rects, keys, state.layers, state.window_size, resolve),
        };
    assert(state.live(rects[i].0));
    if state.surface.inner is Some {
        let upper = rects.skip(1);
        lemma_rects_fit(upper, keys, state.layers, state.window_size, resolve);
        if i > 0 {
            assert(rects[i] == upper[i - 1]);
            assert(rects[0].0 < rects[i].0);
        }
    } else {
        lemma_rects_fit(rects, keys, state.layers, state.window_size, resolve);
    }
}

/// A layer takes input where it is drawn: its corner is its place, its width and
/// height are those of its surface. A layer with an input rect takes it there: the
/// corner is found across the width and the height of the window, each in its own
/// direction, and the width and height are those of the rect.
pub proof fn law_layer_takes_input_where_it_is_drawn<F: Fn(PercentLength, u32) -> i32>(
    data: RenderData,
    resolve: F,
    rects: Vec<LayerRect>,
    i: int,
)
    requires
        !data.layers@.contains_key(0),
        call_ensures(RenderData::layer_rects, (&data, &resolve), rects),
        0 <= i < rects@.len(),
    ensures
        ({
            let (layer, x, y, width, height) = rects@[i];
            let input = if layer == 0 {
                data.layer0_input_rect
            } else {
                data.layers@[layer].input_rect
            };
            let position = if layer == 0 {
                data.position
            } else {
                data.layers@[layer].position
            };
            let surface = if layer == 0 {
                data.surface.inner
            } else {
                data.layers@[layer].surface.inner
            };
            &&& layer == 0 || data.layers@.contains_key(layer)
            &&& surface is Some
            &&& input is None ==> x == position.0 && y == position.1 && width == (
            surface->0).size.0 && height == (surface->0).size.1
            &&& input is Some ==> {
                &&& call_ensures(resolve, ((input->0).x, data.window_size.0), x)
                &&& call_ensures(resolve, ((input->0).y, data.window_size.1), y)
                &&& width == (input->0).width
                &&& height == (input->0).height
            }
        }),
{
    lemma_rect_of_layer(data@, rects@, resolve, i);
}

/// Where layers take input is asked for each of those with a surface.
pub proof fn law_every_surface_takes_input<F: Fn(PercentLength, u32) -> i32>(
    data: RenderData,
    resolve: F,
    rects: Vec<LayerRect>,
    layer: u32,
)
    requires
        !data.layers@.contains_key(0),
        call_ensures(RenderData::layer_rects, (&data, &resolve), rects),
        layer == 0 ==> data.surface.inner is Some,
        layer != 0 ==> data.layers@.contains_key(layer) && data.layers@[layer].surface.inner is Some,
    ensures
        exists|i: int| 0 <= i < rects@.len() && (#[trigger] rects@[i]).0 == layer,
        forall|i: int, j: int|
            0 <= i < j < rects@.len() ==> (#[trigger] rects@[i]).0 < (#[trigger] rects@[j]).0,
{
    law_layers_take_input_in_order(data@, rects@, resolve);
    assert(data@.live(layer));
}

/// Layers are listed from the lowest to the highest, each once, and all of them.
pub proof fn law_layers_are_listed_upwards(
    layers: BTreeMap<u32, LayerState>,
    keys: Vec<u32>,
    i: int,
    j: int,
    layer: u32,
)
    requires
        call_ensures(layer_keys, (&layers,), keys),
        0 <= i < j < keys@.len(),
    ensures
        keys@[i] < keys@[j],
        layers@.contains_key(keys@[i]),
        layers@.contains_key(layer) ==> keys@.contains(layer),
{
    assert(keys@.contains(keys@[i]));
}

/// A surface is the one that was opened last, and is announced as new; without a
/// handle, and after a failure, there is none.
pub proof fn law_surface_is_the_one_opened_last<
    E,
    F: FnOnce(SharedHandle) -> Result<OverlaySurface, E>,
>(
    state: &mut SurfaceState,
    handle: Option<SharedHandle>,
    open: F,
    done: Result<(), E>,
    later: SurfaceState,
    surface: Option<OverlaySurface>,
)
    requires
        call_ensures(SurfaceState::update, (state, handle, open), done),
        later == *final(state),
        call_ensures(SurfaceState::get, (&later,), surface),
    ensures
        handle is None ==> done is Ok && surface is None,
        done is Err ==> surface is None,
        handle matches Some(from) ==> exists|outcome: Result<OverlaySurface, E>| #[trigger]
            call_ensures(open, (from,), outcome) && (outcome is Ok ==> done is Ok && surface == Some(
                outcome->Ok_0,
            ) && later.updated) && (outcome is Err ==> done is Err && done->Err_0
                == outcome->Err_0),
{
    if let Some(from) = handle {
        let outcome = choose|outcome: Result<OverlaySurface, E>| #[trigger]
            call_ensures(open, (from,), outcome) && match outcome {
                Ok(opened) => *final(state) == (SurfaceState {
                    inner: Some(opened),
                    updated: true,
                }) && done is Ok,
                Err(error) => *final(state) == SurfaceState::fresh() && done == Err::<(), E>(error),
            };
        assert(call_ensures(open, (from,), outcome));
    }
}

} // verus!
