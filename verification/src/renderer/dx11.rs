//! Drawing with Direct3D 11.

use crate::renderer::layers::{lock_texture, LayerMaps, LayerTextures};
use crate::texture::{SharedHandle, UpdateSharedHandle};
use crate::util::{mailbox_sample, HeldMutexes, MailboxSample};
use vstd::prelude::*;

verus! {

broadcast use vstd::std_specs::hash::group_hash_axioms;

/// An open shared texture, its lock if it has one, and a view of it.
#[derive(Debug, Clone, Copy, PartialEq, Eq, Structural)]
pub struct Dx11Tex {
    pub texture: usize,
    pub mutex: Option<usize>,
    pub view: usize,
}

/// Size and format of a texture.
#[derive(Debug, Clone, Copy, PartialEq, Eq, Structural)]
pub struct TexDesc {
    pub width: u32,
    pub height: u32,
    pub format: u32,
}

/// A copy of the last picture that was drawn under the lock.
#[derive(Debug, Clone, Copy, PartialEq, Eq, Structural)]
pub struct LastGood {
    pub tex: usize,
    pub view: usize,
    pub desc: TexDesc,
}

/// How a layer is drawn.
#[derive(Debug, Clone, Copy, PartialEq, Eq, Structural)]
pub enum Dx11Draw {
    /// Not at all.
    Skip,
    /// From the copy.
    Cache { view: usize },
    /// From the texture, which is then copied if it is locked.
    Live { view: usize, snapshot: bool },
}

/// How a layer is drawn from its texture and its copy.
pub open spec fn sampled(held: bool, tex: Dx11Tex, copy: Option<LastGood>) -> Dx11Draw {
    match crate::util::sampled(held, copy is Some) {
        MailboxSample::Skip => Dx11Draw::Skip,
        MailboxSample::Cache => Dx11Draw::Cache {
            view: match copy {
                Some(good) => good.view,
                None => tex.view,
            },
        },
        MailboxSample::Live => Dx11Draw::Live { view: tex.view, snapshot: held },
    }
}

/// Opens a shared texture: `opened` is what the device opened, with its lock and
/// its size; `view` makes a view of it. A texture without an area is none.
pub fn open_shared_texture<E>(
    opened: Option<(usize, Option<usize>, TexDesc)>,
    view: impl FnOnce() -> Result<usize, E>,
) -> (tex: Result<Option<Dx11Tex>, E>)
    requires
        opened matches Some((texture, mutex, desc)) ==> (desc.width != 0 && desc.height != 0
            ==> call_requires(view, ())),
    ensures
        match opened {
            Some((texture, mutex, desc)) if desc.width != 0 && desc.height != 0 => exists|
                made: Result<usize, E>,
            | #[trigger]
                call_ensures(view, (), made) && tex == match made {
                    Ok(view) => Ok::<Option<Dx11Tex>, E>(Some(Dx11Tex { texture, mutex, view })),
                    Err(error) => Err(error),
                },
            _ => tex == Ok::<Option<Dx11Tex>, E>(None),
        },
{
    match opened {
        None => Ok(None),
        Some((texture, mutex, desc)) => {
            if desc.width == 0 || desc.height == 0 {
                return Ok(None);
            }
            let made = view();
            assert(call_ensures(view, (), made));
            match made {
                Ok(view) => Ok(Some(Dx11Tex { texture, mutex, view })),
                Err(error) => Err(error),
            }
        },
    }
}

/// The layers that are drawn.
pub struct Dx11Renderer {
    pub layers: LayerTextures<Dx11Tex, LastGood>,
}

impl View for Dx11Renderer {
    type V = LayerMaps<Dx11Tex, LastGood>;

    open spec fn view(&self) -> LayerMaps<Dx11Tex, LastGood> {
        self.layers@
    }
}

/// The copy of a layer's last picture.
pub open spec fn copy_of(maps: LayerMaps<Dx11Tex, LastGood>, layer: u32) -> Option<LastGood> {
    maps.last_good.get(layer)
}

/// Whether `draw` is how a layer is drawn that was found with the texture `got`.
pub open spec fn draws<E, F: FnOnce(usize, u32) -> i32>(
    maps: LayerMaps<Dx11Tex, LastGood>,
    layer: u32,
    got: Result<Option<Dx11Tex>, E>,
    acquire: F,
    before: Seq<usize>,
    after: Seq<usize>,
    draw: Result<Dx11Draw, E>,
) -> bool {
    match got {
        Err(error) => after == before && draw == Err::<Dx11Draw, E>(error),
        Ok(None) => after == before && draw == Ok::<Dx11Draw, E>(Dx11Draw::Skip),
        Ok(Some(tex)) => exists|held: Option<bool>| #[trigger]
            crate::renderer::layers::locks(before, tex.mutex, acquire, after, held) && draw
                == match held {
                Some(held) => Ok::<Dx11Draw, E>(sampled(held, tex, copy_of(maps, layer))),
                None => Ok(Dx11Draw::Skip),
            },
    }
}

/// What the copies are after a layer's picture was copied, where `made` is a new
/// texture for it and its view; none is made where the old one fits.
pub open spec fn snapshotted(
    copies: Map<u32, LastGood>,
    layer: u32,
    desc: TexDesc,
    made: Option<(usize, usize)>,
) -> (Map<u32, LastGood>, Option<usize>) {
    if desc.width == 0 || desc.height == 0 {
        (copies, None)
    } else if fits(copies, layer, desc) {
        (copies, Some(copies[layer].tex))
    } else {
        match made {
            Some((tex, view)) => (copies.insert(layer, LastGood { tex, view, desc }), Some(tex)),
            None => (copies, None),
        }
    }
}

/// Whether a layer's copy has the size and format of its texture.
pub open spec fn fits(copies: Map<u32, LastGood>, layer: u32, desc: TexDesc) -> bool {
    copies.contains_key(layer) && copies[layer].desc == desc
}

impl Dx11Renderer {
    /// No layers.
    pub fn new() -> (renderer: Dx11Renderer)
        ensures
            renderer@ == (LayerMaps::<Dx11Tex, LastGood> {
                textures: Map::empty(),
                last_good: Map::empty(),
            }),
    {
        Dx11Renderer { layers: LayerTextures::new() }
    }

    /// Takes a change of a layer's texture in.
    pub fn update_texture(&mut self, layer: u32, shared: UpdateSharedHandle)
        ensures
            final(self)@ == old(self)@.updated(layer, shared),
    {
        self.layers.update_texture(layer, shared);
    }

    /// Tells how a layer is drawn. Nothing is drawn on a screen without an area,
    /// and nothing of a texture whose lock fails outright.
    pub fn draw<
        E,
        O: FnOnce(SharedHandle) -> Result<Option<Dx11Tex>, E>,
        A: FnOnce(usize, u32) -> i32,
    >(
        &mut self,
        holds: &mut HeldMutexes,
        layer: u32,
        screen: (u32, u32),
        open: O,
        acquire: A,
    ) -> (draw: Result<Dx11Draw, E>)
        requires
            screen.0 != 0 && screen.1 != 0 ==> (old(self)@.texture_of(layer).to_open() matches Some(
                handle,
            ) ==> call_requires(open, (handle,))),
            screen.0 != 0 && screen.1 != 0 ==> forall|
                after: LayerMaps<Dx11Tex, LastGood>,
                tex: Dx11Tex,
            | #[trigger]
                crate::renderer::layers::opens(
                    old(self)@,
                    layer,
                    open,
                    after,
                    Ok::<Option<Dx11Tex>, E>(Some(tex)),
                ) && crate::util::to_take(old(holds)@, tex.mutex) ==> call_requires(
                    acquire,
                    (tex.mutex->0, crate::util::KEYED_MUTEX_TIMEOUT_MS),
                ),
        ensures
            screen.0 == 0 || screen.1 == 0 ==> draw == Ok::<Dx11Draw, E>(Dx11Draw::Skip)
                && final(self)@ == old(self)@ && final(holds)@ == old(holds)@,
            screen.0 != 0 && screen.1 != 0 ==> exists|got: Result<Option<Dx11Tex>, E>| #[trigger]
                crate::renderer::layers::opens(old(self)@, layer, open, final(self)@, got) && draws(
                    old(self)@,
                    layer,
                    got,
                    acquire,
                    old(holds)@,
                    final(holds)@,
                    draw,
                ),
    {
        if screen.0 == 0 || screen.1 == 0 {
            return Ok(Dx11Draw::Skip);
        }
        let got = self.layers.open_texture(layer, open);
        assert(crate::renderer::layers::opens(old(self)@, layer, open, self@, got));
        match got {
            Err(error) => Err(error),
            Ok(None) => Ok(Dx11Draw::Skip),
            Ok(Some(tex)) => {
                let copy = match self.layers.last_good.get(&layer) {
                    Some(good) => Some(*good),
                    None => None,
                };
                assert(copy == copy_of(old(self)@, layer));
                let held = lock_texture(holds, tex.mutex, acquire);
                assert(crate::renderer::layers::locks(
                    old(holds)@,
                    tex.mutex,
                    acquire,
                    holds@,
                    held,
                ));
                match held {
                    None => Ok(Dx11Draw::Skip),
                    Some(held) => Ok(
                        match mailbox_sample(held, copy.is_some()) {
                            MailboxSample::Skip => Dx11Draw::Skip,
                            MailboxSample::Cache => Dx11Draw::Cache {
                                view: match copy {
                                    Some(good) => good.view,
                                    None => tex.view,
                                },
                            },
                            MailboxSample::Live => Dx11Draw::Live {
                                view: tex.view,
                                snapshot: held,
                            },
                        },
                    ),
                }
            },
        }
    }

    /// The texture that a layer's picture is copied into, if any: the one that
    /// it was copied into before, if that fits, else a new one. `make` makes a
    /// texture and a view of it, and may fail.
    pub fn snapshot_last_good<F: FnOnce(TexDesc) -> Option<(usize, usize)>>(
        &mut self,
        layer: u32,
        desc: TexDesc,
        make: F,
    ) -> (target: Option<usize>)
        requires
            desc.width != 0 && desc.height != 0 && !fits(old(self)@.last_good, layer, desc)
                ==> call_requires(make, (desc,)),
        ensures
            final(self)@.textures == old(self)@.textures,
            desc.width == 0 || desc.height == 0 || fits(old(self)@.last_good, layer, desc) ==> (
            final(self)@.last_good, target) == snapshotted(old(self)@.last_good, layer, desc, None),
            desc.width != 0 && desc.height != 0 && !fits(old(self)@.last_good, layer, desc)
                ==> exists|made: Option<(usize, usize)>| #[trigger]
                call_ensures(make, (desc,), made) && (final(self)@.last_good, target)
                    == snapshotted(old(self)@.last_good, layer, desc, made),
    {
        if desc.width == 0 || desc.height == 0 {
            return None;
        }
        let fitting = match self.layers.last_good.get(&layer) {
            Some(good) => if good.desc == desc {
                Some(good.tex)
            } else {
                None
            },
            None => None,
        };
        if fitting.is_some() {
            return fitting;
        }
        let made = make(desc);
        assert(call_ensures(make, (desc,), made));
        match made {
            Some((tex, view)) => {
                self.layers.last_good.insert(layer, LastGood { tex, view, desc });
                Some(tex)
            },
            None => None,
        }
    }
}

/// A picture is never drawn from a texture that somebody else may be writing:
/// without the lock it comes from the copy, and without a copy the layer is
/// left out.
pub proof fn law_unlocked_texture_is_not_drawn(tex: Dx11Tex, copy: Option<LastGood>)
    ensures
        !(sampled(false, tex, copy) is Live),
        copy is None ==> sampled(false, tex, copy) is Skip,
        copy is Some ==> sampled(false, tex, copy) == (Dx11Draw::Cache { view: (copy->0).view }),
        sampled(true, tex, copy) == (Dx11Draw::Live { view: tex.view, snapshot: true }),
{
}

/// A texture that was opened and has an area comes with its own lock and a view
/// of it; one without, or that was not opened, is none. Without a view it fails.
pub proof fn law_opened_texture_has_a_view<E, F: FnOnce() -> Result<usize, E>>(
    opened: Option<(usize, Option<usize>, TexDesc)>,
    view: F,
    tex: Result<Option<Dx11Tex>, E>,
)
    requires
        call_ensures(open_shared_texture, (opened, view), tex),
    ensures
        opened is None || (opened->0).2.width == 0 || (opened->0).2.height == 0 ==> tex is Ok
            && tex->Ok_0 is None,
        opened is Some && (opened->0).2.width != 0 && (opened->0).2.height != 0 ==> exists|
            made: Result<usize, E>,
        | #[trigger]
            call_ensures(view, (), made) && (made is Err ==> tex is Err && tex->Err_0
                == made->Err_0) && (made is Ok ==> tex is Ok && tex->Ok_0 is Some && (
            tex->Ok_0->0).texture == (opened->0).0 && (tex->Ok_0->0).mutex == (opened->0).1 && (
            tex->Ok_0->0).view == made->Ok_0),
{
    if opened is Some && (opened->0).2.width != 0 && (opened->0).2.height != 0 {
        let made = choose|made: Result<usize, E>| #[trigger]
            call_ensures(view, (), made) && tex == match made {
                Ok(view) => Ok::<Option<Dx11Tex>, E>(
                    Some(Dx11Tex { texture: (opened->0).0, mutex: (opened->0).1, view }),
                ),
                Err(error) => Err(error),
            };
        assert(call_ensures(view, (), made));
    }
}

/// No layer is known at first, and a layer whose texture is gone is not known
/// any more; other layers keep what they have.
pub proof fn law_gone_layer_is_forgotten(
    fresh: Dx11Renderer,
    renderer: &mut Dx11Renderer,
    layer: u32,
    shared: UpdateSharedHandle,
    other: u32,
)
    requires
        call_ensures(Dx11Renderer::new, (), fresh),
        call_ensures(Dx11Renderer::update_texture, (renderer, layer, shared), ()),
        other != layer,
    ensures
        fresh@.textures.get(layer) is None && fresh@.last_good.get(layer) is None,
        shared.handle is None ==> final(renderer)@.textures.get(layer) is None && final(renderer)@.last_good.get(layer) is None,
        shared.handle is Some ==> final(renderer)@.textures.contains_key(layer) && final(renderer)@.last_good == old(renderer)@.last_good,
        final(renderer)@.textures.get(other) == old(renderer)@.textures.get(other),
        final(renderer)@.last_good.get(other) == old(renderer)@.last_good.get(other),
{
}

/// A layer is drawn from its own texture, and then copied, only while its lock
/// counts as held; while it does not it is drawn from its copy, and without one
/// left out. Nothing is drawn on a screen without an area.
pub proof fn law_layer_is_drawn_from_what_is_locked<
    E,
    O: FnOnce(SharedHandle) -> Result<Option<Dx11Tex>, E>,
    A: FnOnce(usize, u32) -> i32,
>(
    renderer: &mut Dx11Renderer,
    holds: &mut HeldMutexes,
    layer: u32,
    screen: (u32, u32),
    open: O,
    acquire: A,
    draw: Result<Dx11Draw, E>,
)
    requires
        call_ensures(
            Dx11Renderer::draw::<E, O, A>,
            (renderer, holds, layer, screen, open, acquire),
            draw,
        ),
    ensures
        screen.0 == 0 || screen.1 == 0 ==> draw is Ok && draw->Ok_0 is Skip && final(renderer)@
            == old(renderer)@ && final(holds)@ == old(holds)@,
        final(renderer)@.last_good == old(renderer)@.last_good,
        draw is Ok && draw->Ok_0 is Live ==> ({
            let texture = final(renderer)@.texture_of(layer).texture();
            &&& texture is Some
            &&& draw->Ok_0->Live_view == texture->0.view
            &&& draw->Ok_0->snapshot
            &&& texture->0.mutex is Some ==> final(holds)@.contains(texture->0.mutex->0)
        }),
        draw is Ok && draw->Ok_0 is Cache ==> old(renderer)@.last_good.contains_key(layer)
            && draw->Ok_0->Cache_view == old(renderer)@.last_good[layer].view && final(holds)@
            == old(holds)@,
        draw is Err ==> final(holds)@ == old(holds)@,
{
    if screen.0 != 0 && screen.1 != 0 {
        let got = choose|got: Result<Option<Dx11Tex>, E>| #[trigger]
            crate::renderer::layers::opens(
                old(renderer)@,
                layer,
                open,
                final(renderer)@,
                got,
            ) && draws(
                old(renderer)@,
                layer,
                got,
                acquire,
                old(holds)@,
                final(holds)@,
                draw,
            );
        assert(crate::renderer::layers::opens(
            old(renderer)@,
            layer,
            open,
            final(renderer)@,
            got,
        ));
        if let Ok(Some(tex)) = got {
            let held = choose|held: Option<bool>| #[trigger]
                crate::renderer::layers::locks(
                    old(holds)@,
                    tex.mutex,
                    acquire,
                    final(holds)@,
                    held,
                ) && draw == match held {
                    Some(held) => Ok::<Dx11Draw, E>(
                        sampled(held, tex, copy_of(old(renderer)@, layer)),
                    ),
                    None => Ok(Dx11Draw::Skip),
                };
            assert(crate::renderer::layers::locks(
                old(holds)@,
                tex.mutex,
                acquire,
                final(holds)@,
                held,
            ));
            if held == Some(true) && tex.mutex is Some && !old(holds)@.contains(tex.mutex->0) {
                assert(final(holds)@.last() == tex.mutex->0);
            }
        }
    }
}

/// A picture is copied into a texture of its own size and format: the layer's
/// copy if it fits, else a new one, which then is the layer's copy. A picture
/// without an area, or for which none can be made, is not copied. Textures and
/// the copies of other layers stay.
pub proof fn law_copy_has_the_size_of_its_picture<F: FnOnce(TexDesc) -> Option<(usize, usize)>>(
    renderer: &mut Dx11Renderer,
    layer: u32,
    desc: TexDesc,
    make: F,
    target: Option<usize>,
    other: u32,
)
    requires
        call_ensures(
            Dx11Renderer::snapshot_last_good::<F>,
            (renderer, layer, desc, make),
            target,
        ),
        other != layer,
    ensures
        final(renderer)@.textures == old(renderer)@.textures,
        final(renderer)@.last_good.get(other) == old(renderer)@.last_good.get(other),
        desc.width == 0 || desc.height == 0 ==> target is None,
        target is None ==> final(renderer)@.last_good == old(renderer)@.last_good,
        target is Some ==> final(renderer)@.last_good.contains_key(layer) && final(renderer)@.last_good[layer].tex == target->0 && final(renderer)@.last_good[layer].desc == desc,
        desc.width != 0 && desc.height != 0 && old(renderer)@.last_good.contains_key(layer) && old(renderer)@.last_good[layer].desc == desc ==> target == Some(old(renderer)@.last_good[layer].tex)
            && final(renderer)@.last_good == old(renderer)@.last_good,
        desc.width != 0 && desc.height != 0 && !(old(renderer)@.last_good.contains_key(layer)
            && old(renderer)@.last_good[layer].desc == desc) ==> exists|
            made: Option<(usize, usize)>,
        | #[trigger]
            call_ensures(make, (desc,), made) && (target is Some <==> made is Some) && (made is Some
                ==> final(renderer)@.last_good[layer].tex == (made->0).0 && final(renderer)@.last_good[layer].view == (made->0).1),
{
    if desc.width != 0 && desc.height != 0 && !fits(old(renderer)@.last_good, layer, desc) {
        let made = choose|made: Option<(usize, usize)>| #[trigger]
            call_ensures(make, (desc,), made) && (final(renderer)@.last_good, target)
                == snapshotted(old(renderer)@.last_good, layer, desc, made);
        assert(call_ensures(make, (desc,), made));
    }
}

} // verus!
