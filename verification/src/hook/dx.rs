//! Direct3D from version 9 on.

pub mod dx12;
pub mod dx9;
pub mod dxgi;
pub mod render_gate;
pub mod renderer_map;

use crate::backend::render::{DrawnLayer, RenderData, RenderState, Renderer};
use crate::hook::dx::render_gate::{adopt_renderer, DrawGate};
use crate::texture::UpdateSharedHandle;
use vstd::prelude::*;

verus! {

/// The view that is kept in a slot, made where there is none yet. Making it may
/// fail.
pub fn cached_rtv_get_or_insert<T>(
    slot: &mut Option<T>,
    create: impl FnOnce() -> Option<T>,
) -> (view: Option<&T>)
    requires
        *old(slot) is None ==> call_requires(create, ()),
    ensures
        *old(slot) is Some ==> *final(slot) == *old(slot),
        *old(slot) is None ==> call_ensures(create, (), *final(slot)),
        view == match *final(slot) {
            Some(kept) => Some(&kept),
            None => None,
        },
{
    if slot.is_none() {
        *slot = create();
    }
    slot.as_ref()
}

/// Empties a slot.
pub fn cached_rtv_invalidate<T>(slot: &mut Option<T>)
    ensures
        *final(slot) is None,
{
    *slot = None;
}

/// Whether what was created is wrapped: the creation succeeded, and made
/// something where there was a place for it.
pub open spec fn wraps(hr: i32, out: Option<usize>) -> bool {
    hr >= 0 && out is Some && out->0 != 0
}

/// Wraps what was created, if anything was.
pub fn wrap_created(hr: i32, out: Option<usize>, wrap: impl FnOnce(usize))
    requires
        wraps(hr, out) ==> call_requires(wrap, (out->0,)),
    ensures
        wraps(hr, out) ==> call_ensures(wrap, (out->0,), ()),
{
    if hr < 0 {
        return ;
    }
    if let Some(raw) = out {
        if raw != 0 {
            wrap(raw);
        }
    }
}

/// Creates something with the real function, in any case, and wraps it if
/// anything was created. `original` answers, and tells what stands where the
/// creation goes, if there is such a place.
pub fn create_then_wrap(
    original: impl FnOnce() -> (i32, Option<usize>),
    wrap: impl FnOnce(usize),
) -> (hr: i32)
    requires
        call_requires(original, ()),
        forall|made: (i32, Option<usize>)| #[trigger]
            call_ensures(original, (), made) && wraps(made.0, made.1) ==> call_requires(
                wrap,
                (made.1->0,),
            ),
    ensures
        exists|made: (i32, Option<usize>)| #[trigger]
            call_ensures(original, (), made) && hr == made.0 && (wraps(made.0, made.1)
                ==> call_ensures(wrap, (made.1->0,), ())),
{
    let made = original();
    assert(call_ensures(original, (), made));
    wrap_created(made.0, made.1, wrap);
    made.0
}

/// The versions that draw through swap chains of the graphics infrastructure.
#[derive(Debug, Clone, Copy, PartialEq, Eq, Structural)]
pub enum Api {
    Dx10,
    Dx11,
    Dx12,
}

/// The interface that a version draws with.
pub open spec fn renderer_of(api: Api) -> Renderer {
    match api {
        Api::Dx10 => Renderer::Dx10,
        Api::Dx11 => Renderer::Dx11,
        Api::Dx12 => Renderer::Dx12,
    }
}

/// The interfaces that a version takes over from: those that are presented
/// through it.
pub open spec fn migrates(api: Api) -> Seq<Renderer> {
    match api {
        Api::Dx10 => seq![Renderer::Opengl],
        Api::Dx11 => seq![Renderer::Opengl],
        Api::Dx12 => seq![Renderer::Opengl, Renderer::Vulkan],
    }
}

/// How one layer is drawn.
#[derive(Debug, Clone, Copy, PartialEq, Eq)]
pub struct LayerStep {
    pub layer: u32,
    /// The change of its texture that comes first.
    pub update: Option<UpdateSharedHandle>,
    /// Where it goes, and how large it is. A layer that has just lost its
    /// texture is not drawn.
    pub draw: Option<((i32, i32), (u32, u32))>,
}

/// How one layer is drawn.
pub open spec fn step(layer: DrawnLayer) -> LayerStep {
    LayerStep {
        layer: layer.0,
        update: layer.1,
        draw: if layer.3.0 == 0 || layer.3.1 == 0 {
            None
        } else {
            Some((layer.2, layer.3))
        },
    }
}

/// How layers are drawn, one after the other, until one fails.
pub open spec fn steps(layers: Seq<DrawnLayer>) -> Seq<LayerStep> {
    layers.map_values(|layer: DrawnLayer| step(layer))
}

/// How layers are drawn, one after the other, until one fails.
pub fn layer_steps(layers: &Vec<DrawnLayer>) -> (out: Vec<LayerStep>)
    ensures
        out@ == steps(layers@),
{
    let mut out: Vec<LayerStep> = Vec::new();
    let mut i: usize = 0;
    while i < layers.len()
        invariant
            i <= layers@.len(),
            out@.len() == i,
            forall|k: int| 0 <= k < i ==> out@[k] == steps(layers@)[k],
        decreases layers@.len() - i,
    {
        let (layer, update, position, size) = layers[i];
        let draw = if size.0 == 0 || size.1 == 0 {
            None
        } else {
            Some((position, size))
        };
        out.push(LayerStep { layer, update, draw });
        i += 1;
    }
    assert(out@ =~= steps(layers@));
    out
}

/// Whether the steps before `n` were performed.
pub open spec fn performed<E, F: Fn(LayerStep) -> Result<(), E>>(
    plan: Seq<LayerStep>,
    n: int,
    perform: F,
) -> bool {
    forall|k: int|
        0 <= k < n ==> call_ensures(perform, (#[trigger] plan[k],), Ok::<(), E>(()))
}

/// Performs the steps of a plan in turn. The first one that fails is the last.
pub fn perform_steps<E, F: Fn(LayerStep) -> Result<(), E>>(plan: &Vec<LayerStep>, perform: &F) -> (
    done: Result<(), E>)
    requires
        forall|k: int|
            0 <= k < plan@.len() && performed::<E, F>(plan@, k, *perform) ==> call_requires(
                *perform,
                (#[trigger] plan@[k],),
            ),
    ensures
        done is Ok ==> performed::<E, F>(plan@, plan@.len() as int, *perform),
        done is Err ==> exists|k: int|
            0 <= k < plan@.len() && performed::<E, F>(plan@, k, *perform) && call_ensures(
                *perform,
                (#[trigger] plan@[k],),
                done,
            ),
{
    let mut i: usize = 0;
    while i < plan.len()
        invariant
            i <= plan@.len(),
            forall|k: int|
                0 <= k < plan@.len() && performed::<E, F>(plan@, k, *perform) ==> call_requires(
                    *perform,
                    (#[trigger] plan@[k],),
                ),
            performed::<E, F>(plan@, i as int, *perform),
        decreases plan@.len() - i,
    {
        let step = plan[i];
        let done = perform(step);
        assert(call_ensures(*perform, (plan@[i as int],), done));
        match done {
            Err(error) => {
                return Err(error);
            },
            Ok(nothing) => {
                assert(nothing == ());
            },
        }
        i += 1;
    }
    Ok(())
}

/// Ends a frame whose layers were drawn with `drawn`: its commands are handed
/// over in any case, by `finish`, and the first failure counts.
pub fn finish_frame<E>(drawn: Result<(), E>, finish: impl FnOnce() -> Result<(), E>) -> (done: Result<
    (),
    E,
>)
    requires
        call_requires(finish, ()),
    ensures
        exists|ended: Result<(), E>| #[trigger]
            call_ensures(finish, (), ended) && done == if drawn is Ok {
                ended
            } else {
                drawn
            },
{
    let ended = finish();
    assert(call_ensures(finish, (), ended));
    match drawn {
        Ok(_) => ended,
        Err(error) => Err(error),
    }
}

/// A window that is drawn with an interface.
pub open spec fn drawn_with(state: RenderState, renderer: Option<Renderer>) -> RenderState {
    RenderState { renderer, ..state }
}

/// How a window is drawn, if this interface draws in it and there is anything to
/// draw. What changed in the window is then announced.
pub fn draw_overlay(render: &mut RenderData, api: Api) -> (plan: Option<Vec<LayerStep>>)
    ensures
        ({
            let gate = crate::hook::dx::render_gate::gate(
                old(render)@.renderer,
                renderer_of(api),
                migrates(api),
            );
            let state = drawn_with(
                old(render)@,
                crate::hook::dx::render_gate::adopted(
                    old(render)@.renderer,
                    renderer_of(api),
                    migrates(api),
                ),
            );
            if gate != DrawGate::Draw {
                plan is None && final(render)@ == state
            } else {
                final(render)@ == state.announced() && exists|keys: Seq<u32>|
                    crate::backend::render::lists(keys, old(render)@.layers) && {
                        let layers = #[trigger] old(render)@.drawing(keys);
                        match plan {
                            None => layers.len() == 0,
                            Some(plan) => layers.len() > 0 && plan@ == steps(layers),
                        }
                    }
            }
        }),
{
    let gate = match api {
        Api::Dx10 => {
            let from = [Renderer::Opengl];
            assert(from@ =~= migrates(api));
            adopt_renderer(&mut render.renderer, Renderer::Dx10, from.as_slice())
        },
        Api::Dx11 => {
            let from = [Renderer::Opengl];
            assert(from@ =~= migrates(api));
            adopt_renderer(&mut render.renderer, Renderer::Dx11, from.as_slice())
        },
        Api::Dx12 => {
            let from = [Renderer::Opengl, Renderer::Vulkan];
            assert(from@ =~= migrates(api));
            adopt_renderer(&mut render.renderer, Renderer::Dx12, from.as_slice())
        },
    };
    if gate != DrawGate::Draw {
        return None;
    }
    let ghost state = render@;
    let layers = render.draw_layers();
    proof {
        let keys = choose|keys: Seq<u32>|
            crate::backend::render::lists(keys, state.layers) && layers@ == #[trigger] state.drawing(
                keys,
            );
        assert(old(render)@.drawing(keys) == state.drawing(keys));
    }
    if layers.len() == 0 {
        return None;
    }
    Some(layer_steps(&layers))
}

/// The parts that are detoured.
#[derive(Debug, Clone, Copy, PartialEq, Eq, Structural)]
pub enum DxPart {
    Dx12,
    Dxgi,
    Dx9,
}

/// The parts that are detoured, in this order.
pub fn hook() -> (parts: [DxPart; 3])
    ensures
        parts@ == seq![DxPart::Dx12, DxPart::Dxgi, DxPart::Dx9],
{
    let parts = [DxPart::Dx12, DxPart::Dxgi, DxPart::Dx9];
    assert(parts@ =~= seq![DxPart::Dx12, DxPart::Dxgi, DxPart::Dx9]);
    parts
}

/// A view is made once and kept until the slot is emptied.
pub proof fn law_view_is_kept_until_invalidated<T, F: FnOnce() -> Option<T>>(
    slot: &mut Option<T>,
    create: F,
    view: Option<&T>,
    next: &mut Option<T>,
)
    requires
        call_ensures(cached_rtv_get_or_insert, (slot, create), view),
        call_ensures(cached_rtv_invalidate::<T>, (next,), ()),
    ensures
        *old(slot) is Some ==> *final(slot) == *old(slot),
        *old(slot) is None ==> call_ensures(create, (), *final(slot)),
        view is Some <==> *final(slot) is Some,
        view is Some ==> *(view->0) == (*final(slot))->0,
        *final(next) is None,
{
}

/// What was created is wrapped as it was created, unless the creation failed,
/// made nothing, or had no place for it.
pub proof fn law_created_is_wrapped<F: FnOnce(usize)>(hr: i32, out: Option<usize>, wrap: F)
    requires
        call_ensures(wrap_created, (hr, out, wrap), ()),
    ensures
        hr >= 0 && out is Some && out->0 != 0 ==> call_ensures(wrap, (out->0,), ()),
{
}

/// The real function is always called, and its answer is given back.
pub proof fn law_creation_answers_as_the_real_one<
    F: FnOnce() -> (i32, Option<usize>),
    G: FnOnce(usize),
>(original: F, wrap: G, hr: i32)
    requires
        call_ensures(create_then_wrap, (original, wrap), hr),
    ensures
        exists|made: (i32, Option<usize>)| #[trigger]
            call_ensures(original, (), made) && hr == made.0 && (made.0 >= 0 && made.1 is Some
                && made.1->0 != 0 ==> call_ensures(wrap, (made.1->0,), ())),
{
    let made = choose|made: (i32, Option<usize>)| #[trigger]
        call_ensures(original, (), made) && hr == made.0 && (wraps(made.0, made.1)
            ==> call_ensures(wrap, (made.1->0,), ()));
    assert(call_ensures(original, (), made));
}

/// Each layer has one step, in the order of the layers: its own texture change,
/// and its own place and size, unless it has no area.
pub proof fn law_layers_are_drawn_in_order(layers: Vec<DrawnLayer>, out: Vec<LayerStep>, i: int)
    requires
        call_ensures(layer_steps, (&layers,), out),
        0 <= i < layers@.len(),
    ensures
        out@.len() == layers@.len(),
        out@[i].layer == layers@[i].0,
        out@[i].update == layers@[i].1,
        out@[i].draw is None <==> ((layers@[i].3).0 == 0 || (layers@[i].3).1 == 0),
        out@[i].draw is Some ==> (out@[i].draw->0).0 == layers@[i].2 && (out@[i].draw->0).1
            == layers@[i].3,
{
}

/// A plan that was performed had every step succeed; one that was not stopped
/// at a step that failed, after all before it had succeeded.
pub proof fn law_plan_stops_at_the_first_failure<E, F: Fn(LayerStep) -> Result<(), E>>(
    plan: Vec<LayerStep>,
    perform: F,
    done: Result<(), E>,
    i: int,
)
    requires
        call_ensures(perform_steps::<E, F>, (&plan, &perform), done),
        0 <= i < plan@.len(),
    ensures
        done is Ok ==> call_ensures(perform, (plan@[i],), Ok::<(), E>(())),
        done is Err ==> exists|k: int|
            0 <= k < plan@.len() && call_ensures(perform, (#[trigger] plan@[k],), done) && (i < k
                ==> call_ensures(perform, (plan@[i],), Ok::<(), E>(()))),
{
    if done is Err {
        let k = choose|k: int|
            0 <= k < plan@.len() && performed::<E, F>(plan@, k, perform) && call_ensures(
                perform,
                (#[trigger] plan@[k],),
                done,
            );
        assert(call_ensures(perform, (plan@[k],), done));
    }
}

/// A frame's commands are handed over whether its layers were drawn or not; the
/// first failure is the frame's.
pub proof fn law_frame_is_always_finished<E, F: FnOnce() -> Result<(), E>>(
    drawn: Result<(), E>,
    finish: F,
    done: Result<(), E>,
)
    requires
        call_ensures(finish_frame, (drawn, finish), done),
    ensures
        exists|ended: Result<(), E>| #[trigger]
            call_ensures(finish, (), ended) && (drawn is Err ==> done == drawn) && (drawn is Ok
                ==> done == ended),
{
    let ended = choose|ended: Result<(), E>| #[trigger]
        call_ensures(finish, (), ended) && done == if drawn is Ok {
            ended
        } else {
            drawn
        };
    assert(call_ensures(finish, (), ended));
}

/// A version draws in a window that is its own, or nobody's yet, and makes it
/// its own. It takes a window over from OpenGL, and version 12 from Vulkan too,
/// without drawing yet; every other window is left to whoever draws in it.
pub proof fn law_version_draws_in_its_own_windows(
    render: &mut RenderData,
    api: Api,
    plan: Option<Vec<LayerStep>>,
)
    requires
        call_ensures(draw_overlay, (render, api), plan),
    ensures
        ({
            let own = match api {
                Api::Dx10 => Renderer::Dx10,
                Api::Dx11 => Renderer::Dx11,
                Api::Dx12 => Renderer::Dx12,
            };
            let was = old(render)@.renderer;
            let yields = was == Some(Renderer::Opengl) || (api is Dx12 && was == Some(
                Renderer::Vulkan,
            ));
            &&& was is None || was == Some(own) || yields ==> final(render)@.renderer == Some(own)
            &&& was is Some && was != Some(own) && !yields ==> final(render)@ == old(render)@
            &&& was is Some && was != Some(own) ==> plan is None
            &&& plan matches Some(steps) ==> steps@.len() > 0
        }),
{
    let was = old(render)@.renderer;
    let from = migrates(api);
    if was is Some {
        if from.contains(was->0) {
            let k = choose|k: int| 0 <= k < from.len() && from[k] == was->0;
            assert(from[k] == was->0);
        }
        assert(from[0] is Opengl);
        if api is Dx12 {
            assert(from[1] is Vulkan);
        }
    }
}

/// Three parts are detoured: version 12 first, then the infrastructure, then
/// version 9.
pub proof fn law_three_parts_are_detoured(parts: [DxPart; 3])
    requires
        call_ensures(hook, (), parts),
    ensures
        parts@[0] is Dx12 && parts@[1] is Dxgi && parts@[2] is Dx9,
        forall|part: DxPart| #[trigger] parts@.contains(part),
{
    assert forall|part: DxPart| #[trigger] parts@.contains(part) by {
        match part {
            DxPart::Dx12 => assert(parts@[0] == part),
            DxPart::Dxgi => assert(parts@[1] == part),
            DxPart::Dx9 => assert(parts@[2] == part),
        }
    }
}

} // verus!
