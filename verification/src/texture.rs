//! Texture opened from a shared handle, and when to open it again.

use vstd::prelude::*;

verus! {

/// A shared handle; 0 is no handle.
#[derive(Debug, Clone, Copy, PartialEq, Eq, Structural)]
pub struct SharedHandle {
    pub raw: u32,
}

impl SharedHandle {
    /// A handle is not 0.
    pub open spec fn wf(self) -> bool {
        self.raw != 0
    }

    /// The handle with this value, unless it is 0.
    pub fn new(raw: u32) -> (handle: Option<SharedHandle>)
        ensures
            handle == (if raw == 0 { None } else { Some(SharedHandle { raw }) }),
    {
        if raw == 0 {
            None
        } else {
            Some(SharedHandle { raw })
        }
    }
}

/// A change of the shared texture; without a handle the texture is gone.
#[derive(Debug, Clone, Copy, PartialEq, Eq, Structural)]
pub struct UpdateSharedHandle {
    pub handle: Option<SharedHandle>,
}

/// What is known of a shared texture.
#[derive(Debug)]
pub enum OverlayTextureState<T> {
    /// There is none.
    Empty,
    /// It was announced, and is not open.
    Handle(SharedHandle),
    /// It is open.
    Created(SharedHandle, T),
    /// It is open, and another was announced that is to take its place.
    CreatedPending(SharedHandle, T, SharedHandle),
}

impl<T> OverlayTextureState<T> {
    /// No texture.
    pub fn new() -> (state: Self)
        ensures
            state == OverlayTextureState::<T>::Empty,
    {
        OverlayTextureState::Empty
    }

    /// The state after an announcement. The same handle keeps the open texture;
    /// a new one leaves it open until the new one could be opened.
    pub open spec fn updated(self, shared: UpdateSharedHandle) -> Self {
        match shared.handle {
            None => OverlayTextureState::Empty,
            Some(handle) => match self {
                OverlayTextureState::Created(current, texture) => if current == handle {
                    self
                } else {
                    OverlayTextureState::CreatedPending(current, texture, handle)
                },
                OverlayTextureState::CreatedPending(
                    current,
                    texture,
                    pending,
                ) => if current == handle || pending == handle {
                    self
                } else {
                    OverlayTextureState::CreatedPending(current, texture, handle)
                },
                _ => OverlayTextureState::Handle(handle),
            },
        }
    }

    /// Takes an announcement in.
    pub fn update(&mut self, shared: UpdateSharedHandle)
        ensures
            *final(self) == old(self).updated(shared),
    {
        let mut state: Self = OverlayTextureState::Empty;
        std::mem::swap(self, &mut state);
        let next = match shared.handle {
            None => OverlayTextureState::Empty,
            Some(handle) => match state {
                OverlayTextureState::Created(current, texture) => if current == handle {
                    OverlayTextureState::Created(current, texture)
                } else {
                    OverlayTextureState::CreatedPending(current, texture, handle)
                },
                OverlayTextureState::CreatedPending(
                    current,
                    texture,
                    pending,
                ) => if current == handle || pending == handle {
                    OverlayTextureState::CreatedPending(current, texture, pending)
                } else {
                    OverlayTextureState::CreatedPending(current, texture, handle)
                },
                _ => OverlayTextureState::Handle(handle),
            },
        };
        *self = next;
    }

    /// The handle that is to be opened next.
    pub open spec fn to_open(self) -> Option<SharedHandle> {
        match self {
            OverlayTextureState::Handle(handle) => Some(handle),
            OverlayTextureState::CreatedPending(_, _, pending) => Some(pending),
            _ => None,
        }
    }

    /// The open texture.
    pub open spec fn texture(self) -> Option<T> {
        match self {
            OverlayTextureState::Created(_, texture) => Some(texture),
            OverlayTextureState::CreatedPending(_, texture, _) => Some(texture),
            _ => None,
        }
    }

    /// The same state with another texture in place of the open one.
    pub open spec fn with_texture(self, texture: T) -> Self {
        match self {
            OverlayTextureState::Created(current, _) => OverlayTextureState::Created(
                current,
                texture,
            ),
            OverlayTextureState::CreatedPending(
                current,
                _,
                pending,
            ) => OverlayTextureState::CreatedPending(current, texture, pending),
            _ => self,
        }
    }

    /// The state after an attempt to open the next texture. Where there is no
    /// new texture, the open one stays; an announcement that yields none is
    /// forgotten unless there is an open one.
    pub open spec fn opened(self, made: Option<T>) -> Self {
        match (self, made) {
            (OverlayTextureState::Handle(handle), Some(texture)) => OverlayTextureState::Created(
                handle,
                texture,
            ),
            (OverlayTextureState::Handle(_), None) => OverlayTextureState::Empty,
            (
                OverlayTextureState::CreatedPending(_, _, pending),
                Some(texture),
            ) => OverlayTextureState::Created(pending, texture),
            _ => self,
        }
    }

    /// The texture to draw. `f` opens the announced texture, if one is to be
    /// opened; where it fails, so does this, and nothing changes.
    pub fn get_or_create<E>(
        &mut self,
        f: impl FnOnce(SharedHandle) -> Result<Option<T>, E>,
    ) -> (got: Result<Option<&mut T>, E>)
        requires
            old(self).to_open() matches Some(handle) ==> call_requires(f, (handle,)),
        ensures
            match old(self).to_open() {
                None => match got {
                    Ok(Some(texture)) => old(self).texture() == Some(*texture) && *final(self)
                        == old(self).with_texture(*final(texture)),
                    Ok(None) => old(self).texture() is None && *final(self) == *old(self),
                    Err(_) => false,
                },
                Some(handle) => exists|made: Result<Option<T>, E>| #[trigger]
                    call_ensures(f, (handle,), made) && match (made, got) {
                        (Err(failed), Err(error)) => failed == error && *final(self) == *old(self),
                        (Ok(made), Ok(Some(texture))) => {
                            &&& old(self).opened(made).texture() == Some(*texture)
                            &&& *final(self) == old(self).opened(made).with_texture(
                                *final(texture),
                            )
                        },
                        (Ok(made), Ok(None)) => {
                            &&& old(self).opened(made).texture() is None
                            &&& *final(self) == old(self).opened(made)
                        },
                        _ => false,
                    },
            },
    {
        let next: Option<SharedHandle> = match self {
            OverlayTextureState::Handle(handle) => Some(*handle),
            OverlayTextureState::CreatedPending(_, _, pending) => Some(*pending),
            _ => None,
        };
        if let Some(handle) = next {
            let made = match f(handle) {
                Ok(made) => made,
                Err(error) => {
                    return Err(error);
                },
            };
            let ghost outcome: Result<Option<T>, E> = Ok(made);
            assert(call_ensures(f, (handle,), outcome));
            match made {
                Some(texture) => {
                    *self = OverlayTextureState::Created(handle, texture);
                },
                None => {
                    if let OverlayTextureState::Handle(_) = self {
                        *self = OverlayTextureState::Empty;
                    }
                },
            }
        }
        match self {
            OverlayTextureState::Created(_, texture) => Ok(Some(texture)),
            OverlayTextureState::CreatedPending(_, texture, _) => Ok(Some(texture)),
            _ => Ok(None),
        }
    }
}

impl<T> Default for OverlayTextureState<T> {
    fn default() -> (state: Self)
        ensures
            state == OverlayTextureState::<T>::Empty,
    {
        Self::new()
    }
}

/// An open texture stays what is drawn until another one could be opened in
/// its place, or until it is said to be gone.
pub proof fn law_open_texture_is_kept<T>(
    state: OverlayTextureState<T>,
    shared: UpdateSharedHandle,
)
    requires
        state.texture() is Some,
        shared.handle is Some,
    ensures
        state.updated(shared).texture() == state.texture(),
        state.updated(shared).opened(None).texture() == state.texture(),
{
}

/// An announcement of the handle that is open already opens nothing.
pub proof fn law_same_handle_is_not_reopened<T>(handle: SharedHandle, texture: T)
    ensures
        OverlayTextureState::Created(handle, texture).updated(
            UpdateSharedHandle { handle: Some(handle) },
        ) == OverlayTextureState::Created(handle, texture),
        OverlayTextureState::Created(handle, texture).to_open() is None,
{
}

/// Only 0 is no handle.
pub proof fn law_only_zero_is_no_handle(raw: u32, handle: Option<SharedHandle>)
    requires
        call_ensures(SharedHandle::new, (raw,), handle),
    ensures
        handle is None <==> raw == 0,
        handle matches Some(handle) ==> handle.raw == raw,
{
}

/// A texture that is said to be gone is gone. An announced handle is the one that is
/// opened next, unless it is the one that is open, or is to be opened already; what is
/// open stays open meanwhile.
pub proof fn law_announced_handle_is_opened_next<T>(
    state: &mut OverlayTextureState<T>,
    shared: UpdateSharedHandle,
)
    requires
        call_ensures(OverlayTextureState::<T>::update, (state, shared), ()),
    ensures
        shared.handle is None ==> *final(state) is Empty,
        shared.handle matches Some(handle) ==> match *old(state) {
            OverlayTextureState::Empty => *final(state) == OverlayTextureState::<T>::Handle(handle),
            OverlayTextureState::Handle(_) => *final(state) == OverlayTextureState::<T>::Handle(
                handle,
            ),
            OverlayTextureState::Created(current, texture) => {
                &&& handle == current ==> *final(state) == *old(state)
                &&& handle != current ==> *final(state) == OverlayTextureState::CreatedPending(
                    current,
                    texture,
                    handle,
                )
            },
            OverlayTextureState::CreatedPending(current, texture, pending) => {
                &&& handle == current || handle == pending ==> *final(state) == *old(state)
                &&& handle != current && handle != pending ==> *final(state)
                    == OverlayTextureState::CreatedPending(current, texture, handle)
            },
        },
{
}

/// What was announced is what is opened: a texture that opens is drawn from then on,
/// under its handle. Where it does not open, the one that was open is still drawn; where
/// there was none the announcement is forgotten. A failure changes nothing. Nothing is
/// opened where nothing was announced.
pub proof fn law_opened_texture_is_drawn<T, E, F: FnOnce(SharedHandle) -> Result<Option<T>, E>>(
    state: &mut OverlayTextureState<T>,
    f: F,
    got: Result<Option<&mut T>, E>,
)
    requires
        call_ensures(OverlayTextureState::<T>::get_or_create, (state, f), got),
    ensures
        match *old(state) {
            OverlayTextureState::Empty => got is Ok && got->Ok_0 is None && *final(state) is Empty,
            OverlayTextureState::Created(handle, texture) => got matches Ok(Some(drawn)) && *drawn
                == texture && *final(state) == OverlayTextureState::Created(handle, *final(drawn)),
            OverlayTextureState::Handle(handle) => match got {
                Ok(Some(drawn)) => call_ensures(f, (handle,), Ok::<Option<T>, E>(Some(*drawn)))
                    && *final(state) == OverlayTextureState::Created(handle, *final(drawn)),
                Ok(None) => call_ensures(f, (handle,), Ok::<Option<T>, E>(None)) && *final(state) is Empty,
                Err(error) => call_ensures(f, (handle,), Err::<Option<T>, E>(error)) && *final(state) == *old(state),
            },
            OverlayTextureState::CreatedPending(current, texture, pending) => match got {
                Ok(Some(drawn)) => (call_ensures(
                    f,
                    (pending,),
                    Ok::<Option<T>, E>(Some(*drawn)),
                ) && *final(state) == OverlayTextureState::Created(pending, *final(drawn))) || (
                call_ensures(f, (pending,), Ok::<Option<T>, E>(None)) && *drawn == texture
                    && *final(state) == OverlayTextureState::CreatedPending(
                    current,
                    *final(drawn),
                    pending,
                )),
                Ok(None) => false,
                Err(error) => call_ensures(f, (pending,), Err::<Option<T>, E>(error)) && *final(state) == *old(state),
            },
        },
{
}

/// There is no texture at first.
pub proof fn law_no_texture_at_first<T>(state: OverlayTextureState<T>)
    requires
        call_ensures(OverlayTextureState::<T>::new, (), state),
    ensures
        state is Empty,
{
}

/// There is no texture by default either.
pub proof fn law_no_texture_by_default<T>(state: OverlayTextureState<T>)
    requires
        call_ensures(OverlayTextureState::<T>::default, (), state),
    ensures
        state is Empty,
{
}

} // verus!
