//! Textures of the layers that a renderer draws.
//!
//! For each layer a renderer has the shared texture, and a copy of the last
//! picture that it got while it held the lock.

use crate::texture::{OverlayTextureState, SharedHandle, UpdateSharedHandle};
use crate::util::{with_keyed_mutex_sampled, HeldMutexes};
use std::collections::HashMap;
use vstd::prelude::*;

verus! {

broadcast use vstd::std_specs::hash::group_hash_axioms;

/// The textures of the layers, and the copies of their last pictures.
pub struct LayerTextures<T, G> {
    pub textures: HashMap<u32, OverlayTextureState<T>>,
    pub last_good: HashMap<u32, G>,
}

/// The textures of the layers, and the copies of their last pictures.
#[verifier::ext_equal]
#[verifier::reject_recursive_types(T)]
#[verifier::reject_recursive_types(G)]
pub ghost struct LayerMaps<T, G> {
    pub textures: Map<u32, OverlayTextureState<T>>,
    pub last_good: Map<u32, G>,
}

impl<T, G> View for LayerTextures<T, G> {
    type V = LayerMaps<T, G>;

    open spec fn view(&self) -> LayerMaps<T, G> {
        LayerMaps { textures: self.textures@, last_good: self.last_good@ }
    }
}

impl<T, G> LayerMaps<T, G> {
    /// What is known of a layer's texture.
    pub open spec fn texture_of(self, layer: u32) -> OverlayTextureState<T> {
        if self.textures.contains_key(layer) {
            self.textures[layer]
        } else {
            OverlayTextureState::Empty
        }
    }

    /// The same with another state of a layer's texture.
    pub open spec fn with_texture(self, layer: u32, state: OverlayTextureState<T>) -> Self {
        LayerMaps { textures: self.textures.insert(layer, state), ..self }
    }

    /// What is known after a change of a layer's texture was announced. A layer
    /// whose texture is gone loses its copy too.
    pub open spec fn updated(self, layer: u32, shared: UpdateSharedHandle) -> Self {
        match shared.handle {
            None => LayerMaps {
                textures: self.textures.remove(layer),
                last_good: self.last_good.remove(layer),
            },
            Some(_) => self.with_texture(layer, self.texture_of(layer).updated(shared)),
        }
    }
}

/// Whether `got` is the texture of a layer, opened with `open` if it was not
/// open yet, and `after` what is known then.
pub open spec fn opens<T, G, E, F: FnOnce(SharedHandle) -> Result<Option<T>, E>>(
    before: LayerMaps<T, G>,
    layer: u32,
    open: F,
    after: LayerMaps<T, G>,
    got: Result<Option<T>, E>,
) -> bool {
    let state = before.texture_of(layer);
    match state.to_open() {
        None => got == Ok::<Option<T>, E>(state.texture()) && after == before.with_texture(
            layer,
            state,
        ),
        Some(handle) => exists|made: Result<Option<T>, E>| #[trigger]
            call_ensures(open, (handle,), made) && match made {
                Err(error) => got == Err::<Option<T>, E>(error) && after == before.with_texture(
                    layer,
                    state,
                ),
                Ok(made) => got == Ok::<Option<T>, E>(state.opened(made).texture()) && after
                    == before.with_texture(layer, state.opened(made)),
            },
    }
}

impl<T, G> LayerTextures<T, G> {
    /// No layers.
    pub fn new() -> (layers: Self)
        ensures
            layers@ == (LayerMaps::<T, G> { textures: Map::empty(), last_good: Map::empty() }),
    {
        LayerTextures { textures: HashMap::new(), last_good: HashMap::new() }
    }

    /// Takes out what is known of a layer's texture.
    fn take_texture(&mut self, layer: u32) -> (state: OverlayTextureState<T>)
        ensures
            state == old(self)@.texture_of(layer),
            final(self)@ == (LayerMaps {
                textures: old(self)@.textures.remove(layer),
                ..old(self)@
            }),
    {
        match self.textures.remove(&layer) {
            Some(state) => state,
            None => OverlayTextureState::Empty,
        }
    }

    /// Puts in what is known of a layer's texture.
    fn put_texture(&mut self, layer: u32, state: OverlayTextureState<T>)
        ensures
            final(self)@ == old(self)@.with_texture(layer, state),
    {
        self.textures.insert(layer, state);
    }

    /// Takes a change of a layer's texture in.
    pub fn update_texture(&mut self, layer: u32, shared: UpdateSharedHandle)
        ensures
            final(self)@ == old(self)@.updated(layer, shared),
    {
        if shared.handle.is_none() {
            self.textures.remove(&layer);
            self.last_good.remove(&layer);
            return ;
        }
        let mut state = self.take_texture(layer);
        state.update(shared);
        self.put_texture(layer, state);
        assert(self@ =~= old(self)@.updated(layer, shared));
    }
}

impl<T: Copy, G> LayerTextures<T, G> {
    /// The texture of a layer, opened if it was announced and is not open yet.
    pub fn open_texture<E, F: FnOnce(SharedHandle) -> Result<Option<T>, E>>(
        &mut self,
        layer: u32,
        open: F,
    ) -> (got: Result<Option<T>, E>)
        requires
            old(self)@.texture_of(layer).to_open() matches Some(handle) ==> call_requires(
                open,
                (handle,),
            ),
        ensures
            opens(old(self)@, layer, open, final(self)@, got),
    {
        let mut state = self.take_texture(layer);
        let got = match state.get_or_create(open) {
            Ok(Some(texture)) => Ok(Some(*texture)),
            Ok(None) => Ok(None),
            Err(error) => Err(error),
        };
        self.put_texture(layer, state);
        assert(self@ =~= old(self)@.with_texture(layer, state));
        got
    }

    /// Changes the open texture of a layer, if it has one.
    pub fn set_texture(&mut self, layer: u32, texture: T)
        ensures
            final(self)@ == if old(self)@.texture_of(layer).texture() is Some {
                old(self)@.with_texture(
                    layer,
                    old(self)@.texture_of(layer).with_texture(texture),
                )
            } else {
                old(self)@
            },
    {
        let known = self.textures.contains_key(&layer);
        let mut state = self.take_texture(layer);
        match &mut state {
            OverlayTextureState::Created(_, current) => {
                *current = texture;
            },
            OverlayTextureState::CreatedPending(_, current, _) => {
                *current = texture;
            },
            _ => {},
        }
        if known {
            self.put_texture(layer, state);
        }
        proof {
            if old(self)@.texture_of(layer).texture() is Some {
                assert(self@ =~= old(self)@.with_texture(
                    layer,
                    old(self)@.texture_of(layer).with_texture(texture),
                ));
            } else {
                assert(self@ =~= old(self)@);
            }
        }
    }

    /// The open texture of a layer.
    pub fn texture(&self, layer: u32) -> (texture: Option<T>)
        ensures
            texture == self@.texture_of(layer).texture(),
    {
        match self.textures.get(&layer) {
            Some(OverlayTextureState::Created(_, texture)) => Some(*texture),
            Some(OverlayTextureState::CreatedPending(_, texture, _)) => Some(*texture),
            _ => None,
        }
    }
}

/// What an attempt to take a lock tells: whether it is held, or nothing where the
/// attempt failed outright.
pub open spec fn lock_told(hr: i32) -> Option<bool> {
    match crate::util::lock_outcome(hr) {
        Ok(held) => Some(held),
        Err(_) => None,
    }
}

/// Whether `held` tells if a texture is locked, and `after` are the locks that
/// are held then: a lock that was taken stays, and one that is held is not
/// taken again.
pub open spec fn locks<F: FnOnce(usize, u32) -> i32>(
    before: Seq<usize>,
    mutex: Option<usize>,
    acquire: F,
    after: Seq<usize>,
    held: Option<bool>,
) -> bool {
    if mutex is None || before.contains(mutex->0) {
        after == before && held == Some(true)
    } else {
        exists|hr: i32| #[trigger]
            call_ensures(acquire, (mutex->0, crate::util::KEYED_MUTEX_TIMEOUT_MS), hr) && held
                == lock_told(hr) && after == if held == Some(true) {
                before.push(mutex->0)
            } else {
                before
            }
    }
}

/// Whether a texture can turn out to be locked: it has no lock, or the lock is
/// held, or `acquire` can take it.
pub open spec fn may_lock<F: FnOnce(usize, u32) -> i32>(
    before: Seq<usize>,
    mutex: Option<usize>,
    acquire: F,
) -> bool {
    crate::util::to_take(before, mutex) ==> exists|hr: i32| #[trigger]
        call_ensures(acquire, (mutex->0, crate::util::KEYED_MUTEX_TIMEOUT_MS), hr) && lock_told(hr)
            == Some(true)
}

/// Hands on whether a texture is locked.
fn told(held: bool) -> (result: bool)
    ensures
        result == held,
{
    held
}

/// Tries to lock a texture, if it has a lock, and tells whether it is locked, or
/// nothing where the attempt failed outright.
pub fn lock_texture<F: FnOnce(usize, u32) -> i32>(
    holds: &mut HeldMutexes,
    mutex: Option<usize>,
    acquire: F,
) -> (held: Option<bool>)
    requires
        crate::util::to_take(old(holds)@, mutex) ==> call_requires(
            acquire,
            (mutex->0, crate::util::KEYED_MUTEX_TIMEOUT_MS),
        ),
    ensures
        locks(old(holds)@, mutex, acquire, final(holds)@, held),
{
    match with_keyed_mutex_sampled(holds, mutex, acquire, told) {
        Ok(held) => held,
        Err(_) => None,
    }
}

/// A layer whose texture is gone is drawn from nothing: neither from the texture
/// nor from its copy. A new texture leaves the copy of the last picture.
pub proof fn law_gone_layer_has_no_copy<T, G>(
    maps: LayerMaps<T, G>,
    layer: u32,
    shared: UpdateSharedHandle,
)
    ensures
        shared.handle is None ==> maps.updated(layer, shared).texture_of(layer)
            == OverlayTextureState::<T>::Empty && !maps.updated(
            layer,
            shared,
        ).last_good.contains_key(layer),
        shared.handle is Some ==> maps.updated(layer, shared).last_good == maps.last_good,
{
}

/// A layer whose texture is gone has neither texture nor copy; one whose texture
/// changes keeps its copy, and an open one is drawn until the new one is open.
/// Other layers keep what they have.
pub proof fn law_texture_change_reaches_its_layer<T: Copy, G>(
    layers: &mut LayerTextures<T, G>,
    layer: u32,
    shared: UpdateSharedHandle,
    later: LayerTextures<T, G>,
    before: Option<T>,
    after: Option<T>,
    other: u32,
    other_before: Option<T>,
    other_after: Option<T>,
)
    requires
        call_ensures(LayerTextures::<T, G>::update_texture, (layers, layer, shared), ()),
        later@ == final(layers)@,
        call_ensures(LayerTextures::<T, G>::texture, (&*layers, layer), before),
        call_ensures(LayerTextures::<T, G>::texture, (&later, layer), after),
        other != layer,
        call_ensures(LayerTextures::<T, G>::texture, (&*layers, other), other_before),
        call_ensures(LayerTextures::<T, G>::texture, (&later, other), other_after),
    ensures
        shared.handle is None ==> after is None && final(layers)@.last_good.get(layer) is None,
        shared.handle is Some ==> after == before && final(layers)@.last_good == old(layers)@.last_good,
        other_after == other_before,
        final(layers)@.last_good.get(other) == old(layers)@.last_good.get(other),
{
}

/// A new texture is opened with the handle that was announced for its layer. If
/// that succeeds it is the layer's texture from then on, and is not opened
/// again; if it fails nothing is lost, and it is opened the next time.
pub proof fn law_announced_texture_is_opened<
    T: Copy,
    G,
    E,
    F: FnOnce(SharedHandle) -> Result<Option<T>, E>,
>(
    layers: &mut LayerTextures<T, G>,
    layer: u32,
    open: F,
    got: Result<Option<T>, E>,
    handle: SharedHandle,
    later: LayerTextures<T, G>,
    texture: Option<T>,
    other: u32,
)
    requires
        call_ensures(LayerTextures::<T, G>::open_texture::<E, F>, (layers, layer, open), got),
        later@ == final(layers)@,
        call_ensures(LayerTextures::<T, G>::texture, (&later, layer), texture),
        other != layer,
    ensures
        final(layers)@.last_good == old(layers)@.last_good,
        final(layers)@.texture_of(other) == old(layers)@.texture_of(other),
        got is Ok ==> texture == got->Ok_0,
        got is Err ==> final(layers)@.texture_of(layer) == old(layers)@.texture_of(layer),
        old(layers)@.texture_of(layer) is Empty ==> got is Ok && got->Ok_0 is None,
        old(layers)@.texture_of(layer) is Created ==> got is Ok && got->Ok_0 == Some(
            old(layers)@.texture_of(layer)->Created_1,
        ),
        old(layers)@.texture_of(layer) == OverlayTextureState::<T>::Handle(handle) ==> exists|
            made: Result<Option<T>, E>,
        | #[trigger]
            call_ensures(open, (handle,), made) && got == made && (made is Ok && made->Ok_0 is Some
                ==> final(layers)@.texture_of(layer) == OverlayTextureState::Created(
                handle,
                made->Ok_0->0,
            )),
{
    let state = old(layers)@.texture_of(layer);
    if state == OverlayTextureState::<T>::Handle(handle) {
        let made = choose|made: Result<Option<T>, E>| #[trigger]
            call_ensures(open, (handle,), made) && match made {
                Err(error) => got == Err::<Option<T>, E>(error) && final(layers)@ == old(layers)@.with_texture(layer, state),
                Ok(made) => got == Ok::<Option<T>, E>(state.opened(made).texture()) && final(layers)@ == old(layers)@.with_texture(layer, state.opened(made)),
            };
        assert(call_ensures(open, (handle,), made));
    }
}

/// A layer that has an open texture has the new one once it is set; one without
/// keeps none. Nothing else changes.
pub proof fn law_open_texture_is_replaced<T: Copy, G>(
    layers: &mut LayerTextures<T, G>,
    layer: u32,
    texture: T,
    later: LayerTextures<T, G>,
    before: Option<T>,
    after: Option<T>,
    other: u32,
)
    requires
        call_ensures(LayerTextures::<T, G>::set_texture, (layers, layer, texture), ()),
        later@ == final(layers)@,
        call_ensures(LayerTextures::<T, G>::texture, (&*layers, layer), before),
        call_ensures(LayerTextures::<T, G>::texture, (&later, layer), after),
        other != layer,
    ensures
        before is Some ==> after == Some(texture),
        before is None ==> final(layers)@ == old(layers)@,
        final(layers)@.last_good == old(layers)@.last_good,
        final(layers)@.texture_of(other) == old(layers)@.texture_of(other),
{
}

/// No layer has a texture or a copy at first.
pub proof fn law_no_layer_is_known_at_first<T: Copy, G>(
    layers: LayerTextures<T, G>,
    layer: u32,
    texture: Option<T>,
)
    requires
        call_ensures(LayerTextures::<T, G>::new, (), layers),
        call_ensures(LayerTextures::<T, G>::texture, (&layers, layer), texture),
    ensures
        texture is None,
        layers@.last_good.get(layer) is None,
{
}

/// A texture without a lock, or whose lock is held, counts as locked without
/// asking. Else its own lock is asked for once, without waiting: 0 and 128 mean
/// that it is held, and it then stays held; another answer that is no failure
/// means that it is not.
pub proof fn law_texture_is_locked_once<F: FnOnce(usize, u32) -> i32>(
    holds: &mut HeldMutexes,
    mutex: Option<usize>,
    acquire: F,
    held: Option<bool>,
)
    requires
        call_ensures(lock_texture::<F>, (holds, mutex, acquire), held),
    ensures
        mutex is None || old(holds)@.contains(mutex->0) ==> held == Some(true) && final(holds)@
            == old(holds)@,
        mutex is Some && !old(holds)@.contains(mutex->0) ==> exists|hr: i32| #[trigger]
            call_ensures(acquire, (mutex->0, 0u32), hr) && (hr < 0 ==> held is None) && (hr >= 0
                ==> held == Some(hr == 0 || hr == 128)),
        mutex is Some && held == Some(true) ==> final(holds)@.contains(mutex->0),
        held != Some(true) ==> final(holds)@ == old(holds)@,
        forall|i: int|
            0 <= i < old(holds)@.len() ==> #[trigger] final(holds)@[i] == old(holds)@[i],
{
    if mutex is Some && !old(holds)@.contains(mutex->0) {
        let hr = choose|hr: i32| #[trigger]
            call_ensures(acquire, (mutex->0, crate::util::KEYED_MUTEX_TIMEOUT_MS), hr) && held
                == lock_told(hr) && final(holds)@ == if held == Some(true) {
                old(holds)@.push(mutex->0)
            } else {
                old(holds)@
            };
        assert(call_ensures(acquire, (mutex->0, 0u32), hr));
        if held == Some(true) {
            assert(final(holds)@.last() == mutex->0);
        }
    }
}

} // verus!
