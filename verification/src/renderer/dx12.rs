//! Drawing with Direct3D 12.
//!
//! All layers of a frame are drawn by one list of commands. The states of the
//! textures that the commands touch are followed here.

pub mod sync;

use crate::renderer::dx12::sync::RendererFence;
use crate::renderer::layers::{lock_texture, LayerMaps, LayerTextures};
use crate::texture::{SharedHandle, UpdateSharedHandle};
use crate::util::{mailbox_sample, HeldMutexes, MailboxSample};
use vstd::prelude::*;

verus! {

broadcast use vstd::std_specs::hash::group_hash_axioms;

/// How many buffers a swap chain can have.
pub const MAX_RENDER_TARGETS: usize = 8;

/// How many layers have a place of their own for the view of their texture.
pub const MAX_LAYER_SRVS: u32 = 8;

/// The state of a buffer that can be presented.
pub const STATE_PRESENT: u32 = 0;

/// The state of a buffer that is drawn into.
pub const STATE_RENDER_TARGET: u32 = 4;

/// The state of a texture that is drawn from.
pub const STATE_PIXEL_SHADER_RESOURCE: u32 = 0x80;

/// The state of a texture that is copied into.
pub const STATE_COPY_DEST: u32 = 0x400;

/// The state of a texture that is copied from.
pub const STATE_COPY_SOURCE: u32 = 0x800;

/// What a layer is drawn from.
#[derive(Debug, Clone, Copy, PartialEq, Eq, Structural)]
pub enum Dx12MailboxAction {
    Skip,
    DrawLastGood,
    DrawSharedAndSnapshot,
}

/// What a layer is drawn from.
pub open spec fn action(lock_held: bool, has_cache: bool) -> Dx12MailboxAction {
    if lock_held {
        Dx12MailboxAction::DrawSharedAndSnapshot
    } else if has_cache {
        Dx12MailboxAction::DrawLastGood
    } else {
        Dx12MailboxAction::Skip
    }
}

/// Decides what a layer is drawn from: the shared texture if it is locked, else
/// its copy.
pub fn dx12_mailbox_action(lock_held: bool, has_cache: bool) -> (chosen: Dx12MailboxAction)
    ensures
        chosen == action(lock_held, has_cache),
{
    match mailbox_sample(lock_held, has_cache) {
        MailboxSample::Skip => Dx12MailboxAction::Skip,
        MailboxSample::Cache => Dx12MailboxAction::DrawLastGood,
        MailboxSample::Live => Dx12MailboxAction::DrawSharedAndSnapshot,
    }
}

/// Whether a state has to be changed.
pub fn resource_barrier_needed(stored: u32, after: u32) -> (needed: bool)
    ensures
        needed == (stored != after),
{
    stored != after
}

/// How a shared texture is locked.
#[derive(Debug, Clone, Copy, PartialEq, Eq, Structural)]
pub enum Dx12Lock {
    /// Its lock could not be found.
    InteropFailed,
    /// It has no lock.
    NoMutex,
    Mutex(usize),
}

/// An open shared texture.
#[derive(Debug, Clone, Copy, PartialEq, Eq, Structural)]
pub struct Dx12Tex {
    pub resource: usize,
    pub lock: Dx12Lock,
    /// It was left in the state that it is drawn from in.
    pub left_in_psr: bool,
}

/// Size and format of a texture.
#[derive(Debug, Clone, Copy, PartialEq, Eq, Structural)]
pub struct TexDesc {
    pub width: u64,
    pub height: u32,
    pub format: u32,
}

/// A copy of the last picture that was drawn under the lock.
#[derive(Debug, Clone, Copy, PartialEq, Eq, Structural)]
pub struct LastGood {
    pub resource: usize,
    pub desc: TexDesc,
    /// It was left in the state that it is drawn from in; before that it is in
    /// the one that it is copied into in.
    pub srv_ready: bool,
}

/// Opens a shared texture. `interop` is the lock of the same texture in the
/// other version, where it could be opened there.
pub fn open_shared(resource: usize, desc: TexDesc, interop: Option<Option<usize>>) -> (tex: Option<
    Dx12Tex,
>)
    ensures
        tex == if desc.width == 0 || desc.height == 0 {
            None
        } else {
            Some(
                Dx12Tex {
                    resource,
                    lock: match interop {
                        None => Dx12Lock::InteropFailed,
                        Some(None) => Dx12Lock::NoMutex,
                        Some(Some(mutex)) => Dx12Lock::Mutex(mutex),
                    },
                    left_in_psr: false,
                },
            )
        },
{
    if desc.width == 0 || desc.height == 0 {
        return None;
    }
    let lock = match interop {
        None => Dx12Lock::InteropFailed,
        Some(None) => Dx12Lock::NoMutex,
        Some(Some(mutex)) => Dx12Lock::Mutex(mutex),
    };
    Some(Dx12Tex { resource, lock, left_in_psr: false })
}

/// Whether `held` tells if a texture is locked, and `after` are the locks that
/// are held then. A texture whose lock could not be found never is.
pub open spec fn locks<F: FnOnce(usize, u32) -> i32>(
    before: Seq<usize>,
    lock: Dx12Lock,
    acquire: F,
    after: Seq<usize>,
    held: Option<bool>,
) -> bool {
    match lock {
        Dx12Lock::InteropFailed => after == before && held == Some(false),
        Dx12Lock::NoMutex => after == before && held == Some(true),
        Dx12Lock::Mutex(mutex) => crate::renderer::layers::locks(
            before,
            Some(mutex),
            acquire,
            after,
            held,
        ),
    }
}

/// Tries to lock a texture, and tells whether it is locked, or nothing where the
/// attempt failed outright; the layer is then left out.
pub fn with_dx12_lock<F: FnOnce(usize, u32) -> i32>(
    holds: &mut HeldMutexes,
    lock: Dx12Lock,
    acquire: F,
) -> (held: Option<bool>)
    requires
        lock matches Dx12Lock::Mutex(mutex) ==> (!old(holds)@.contains(mutex) ==> call_requires(
            acquire,
            (mutex, crate::util::KEYED_MUTEX_TIMEOUT_MS),
        )),
    ensures
        locks(old(holds)@, lock, acquire, final(holds)@, held),
{
    match lock {
        Dx12Lock::InteropFailed => Some(false),
        Dx12Lock::NoMutex => Some(true),
        Dx12Lock::Mutex(mutex) => lock_texture(holds, Some(mutex), acquire),
    }
}

/// A command.
#[derive(Debug, Clone, Copy, PartialEq, Eq, Structural)]
pub enum Command {
    /// Starts the list of a buffer.
    Begin { index: u32 },
    /// Changes the state of a texture or a buffer.
    Barrier { resource: usize, from: u32, to: u32 },
    /// Draws into the buffer from now on.
    Target,
    /// Copies a texture.
    Copy { source: usize, target: usize },
    /// Draws from the texture whose view has a place.
    Draw { slot: u32, source: usize },
    /// Ends the list of a buffer.
    Close { index: u32 },
}

/// The buffer that a list of commands is being made for.
#[derive(Debug, Clone, Copy, PartialEq, Eq, Structural)]
pub struct Recording {
    pub index: u32,
    pub resource: usize,
}

/// The place of the view of a layer's texture.
pub open spec fn srv_slot(layer: u32) -> u32 {
    if layer < MAX_LAYER_SRVS - 1 {
        layer
    } else {
        (MAX_LAYER_SRVS - 1) as u32
    }
}

/// The commands that start a list.
pub open spec fn start_commands(index: u32, backbuffer: usize, stored: u32) -> Seq<Command> {
    if stored != STATE_RENDER_TARGET {
        seq![
            Command::Begin { index },
            Command::Barrier { resource: backbuffer, from: stored, to: STATE_RENDER_TARGET },
            Command::Target,
        ]
    } else {
        seq![Command::Begin { index }, Command::Target]
    }
}

/// The commands that copy a texture.
pub open spec fn copy_commands(good: LastGood, source: usize, left_in_psr: bool) -> Seq<Command> {
    (if good.srv_ready {
        seq![
            Command::Barrier {
                resource: good.resource,
                from: STATE_PIXEL_SHADER_RESOURCE,
                to: STATE_COPY_DEST,
            },
        ]
    } else {
        Seq::empty()
    }) + (if left_in_psr {
        seq![
            Command::Barrier {
                resource: source,
                from: STATE_PIXEL_SHADER_RESOURCE,
                to: STATE_COPY_SOURCE,
            },
        ]
    } else {
        Seq::empty()
    }) + seq![
        Command::Copy { source, target: good.resource },
        Command::Barrier {
            resource: good.resource,
            from: STATE_COPY_DEST,
            to: STATE_PIXEL_SHADER_RESOURCE,
        },
        Command::Barrier {
            resource: source,
            from: STATE_COPY_SOURCE,
            to: STATE_PIXEL_SHADER_RESOURCE,
        },
    ]
}

/// The commands that end a list.
pub open spec fn end_commands(recording: Recording) -> Seq<Command> {
    seq![
        Command::Barrier {
            resource: recording.resource,
            from: STATE_RENDER_TARGET,
            to: STATE_PRESENT,
        },
        Command::Close { index: recording.index },
    ]
}

/// Whether a layer's copy has the size and format of its texture.
pub open spec fn fits(copies: Map<u32, LastGood>, layer: u32, desc: TexDesc) -> bool {
    copies.contains_key(layer) && copies[layer].desc == desc
}

/// The copy that a layer's picture goes into, where `made` is a new texture for
/// it; none is made where the old one fits.
pub open spec fn copy_target(
    copies: Map<u32, LastGood>,
    layer: u32,
    desc: TexDesc,
    made: Option<usize>,
) -> Option<LastGood> {
    if desc.width == 0 || desc.height == 0 {
        None
    } else if fits(copies, layer, desc) {
        Some(copies[layer])
    } else {
        match made {
            Some(resource) => Some(LastGood { resource, desc, srv_ready: false }),
            None => None,
        }
    }
}

/// What is drawn, and how far.
pub struct Dx12Renderer {
    pub layers: LayerTextures<Dx12Tex, LastGood>,
    pub fence: RendererFence,
    /// The list that is being made.
    pub recording: Option<Recording>,
    /// The states of the buffers.
    pub bb_state: [u32; 8],
}

/// What is drawn, and how far.
#[verifier::ext_equal]
pub ghost struct Dx12State {
    pub layers: LayerMaps<Dx12Tex, LastGood>,
    pub fence: RendererFence,
    pub recording: Option<Recording>,
    pub bb_state: Seq<u32>,
}

impl View for Dx12Renderer {
    type V = Dx12State;

    open spec fn view(&self) -> Dx12State {
        Dx12State {
            layers: self.layers@,
            fence: self.fence,
            recording: self.recording,
            bb_state: self.bb_state@,
        }
    }
}

impl Dx12State {
    /// The state once the list of a buffer is started.
    pub open spec fn started(self, index: u32, backbuffer: usize) -> Dx12State {
        Dx12State {
            recording: Some(Recording { index, resource: backbuffer }),
            bb_state: self.bb_state.update(index as int, STATE_RENDER_TARGET),
            ..self
        }
    }

    /// The state once a layer's picture is copied into `good`.
    pub open spec fn copied(self, layer: u32, good: LastGood) -> Dx12State {
        Dx12State {
            layers: LayerMaps {
                textures: self.layers.textures.insert(
                    layer,
                    self.layers.texture_of(layer).with_texture(
                        Dx12Tex {
                            left_in_psr: true,
                            ..self.layers.texture_of(layer).texture()->0
                        },
                    ),
                ),
                last_good: self.layers.last_good.insert(
                    layer,
                    LastGood { srv_ready: true, ..good },
                ),
            },
            ..self
        }
    }

    /// The state once the list is ended.
    pub open spec fn ended(self) -> Dx12State {
        match self.recording {
            None => self,
            Some(recording) => Dx12State {
                recording: None,
                bb_state: self.bb_state.update(recording.index as int, STATE_PRESENT),
                ..self
            },
        }
    }

    /// A list is being made for one of the buffers.
    pub open spec fn wf(self) -> bool {
        &&& self.bb_state.len() == MAX_RENDER_TARGETS
        &&& self.recording is Some ==> (self.recording->0).index < MAX_RENDER_TARGETS
    }
}

/// What a layer is drawn from, if anything.
pub open spec fn source_of(
    maps: LayerMaps<Dx12Tex, LastGood>,
    layer: u32,
    tex: Dx12Tex,
    held: bool,
) -> Option<usize> {
    match action(held, maps.last_good.contains_key(layer)) {
        Dx12MailboxAction::Skip => None,
        Dx12MailboxAction::DrawLastGood => Some(maps.last_good[layer].resource),
        Dx12MailboxAction::DrawSharedAndSnapshot => Some(tex.resource),
    }
}

impl Dx12Renderer {
    /// Nothing is drawn yet.
    pub fn new() -> (renderer: Dx12Renderer)
        ensures
            renderer@.wf(),
            renderer@.layers == (LayerMaps::<Dx12Tex, LastGood> {
                textures: Map::empty(),
                last_good: Map::empty(),
            }),
            renderer@.fence.fence_val == 0,
            renderer@.recording is None,
            forall|i: int| 0 <= i < MAX_RENDER_TARGETS ==> renderer@.bb_state[i] == STATE_PRESENT,
    {
        Dx12Renderer {
            layers: LayerTextures::new(),
            fence: RendererFence::new(),
            recording: None,
            bb_state: [0; 8],
        }
    }

    /// Takes a change of a layer's texture in, once the commands that may use
    /// the old one are through. Where waiting for them fails, the change is lost.
    pub fn update_texture<E, B: FnOnce(u64) -> Result<(), E>>(
        &mut self,
        layer: u32,
        shared: UpdateSharedHandle,
        completed: u64,
        block: B,
    )
        requires
            crate::renderer::dx12::sync::busy(completed, old(self).fence.fence_val)
                ==> call_requires(block, (old(self).fence.fence_val,)),
        ensures
            exists|done: Result<(), E>| #[trigger]
                crate::renderer::dx12::sync::waits(old(self).fence, completed, block, done)
                    && final(self)@ == match done {
                    Ok(_) => Dx12State {
                        layers: old(self)@.layers.updated(layer, shared),
                        ..old(self)@
                    },
                    Err(_) => old(self)@,
                },
    {
        let done = self.fence.wait_pending(completed, block);
        assert(crate::renderer::dx12::sync::waits(old(self).fence, completed, block, done));
        if done.is_err() {
            return ;
        }
        self.layers.update_texture(layer, shared);
    }

    /// The first step of drawing a layer: its texture. The first layer of a
    /// frame waits for the commands of the frame before. Nothing is drawn on a
    /// screen without an area.
    pub fn begin_draw<
        E,
        B: FnOnce(u64) -> Result<(), E>,
        O: FnOnce(SharedHandle) -> Result<Option<Dx12Tex>, E>,
    >(&mut self, layer: u32, screen: (u32, u32), completed: u64, block: B, open: O) -> (got: Result<
        Option<Dx12Tex>,
        E,
    >)
        requires
            screen.0 != 0 && screen.1 != 0 && old(self)@.recording is None
                && crate::renderer::dx12::sync::busy(completed, old(self).fence.fence_val)
                ==> call_requires(block, (old(self).fence.fence_val,)),
            screen.0 != 0 && screen.1 != 0 && (old(self)@.recording is Some
                || crate::renderer::dx12::sync::waits(
                old(self).fence,
                completed,
                block,
                Ok::<(), E>(()),
            )) ==> (old(self)@.layers.texture_of(layer).to_open() matches Some(handle)
                ==> call_requires(open, (handle,))),
        ensures
            screen.0 == 0 || screen.1 == 0 ==> got == Ok::<Option<Dx12Tex>, E>(None) && final(self)@
                == old(self)@,
            screen.0 != 0 && screen.1 != 0 && old(self)@.recording is Some ==> opened(
                old(self)@,
                layer,
                open,
                final(self)@,
                got,
            ),
            screen.0 != 0 && screen.1 != 0 && old(self)@.recording is None ==> exists|
                done: Result<(), E>,
            | #[trigger]
                crate::renderer::dx12::sync::waits(old(self).fence, completed, block, done)
                    && match done {
                    Err(error) => got == Err::<Option<Dx12Tex>, E>(error) && final(self)@ == old(
                        self,
                    )@,
                    Ok(_) => opened(old(self)@, layer, open, final(self)@, got),
                },
    {
        if screen.0 == 0 || screen.1 == 0 {
            return Ok(None);
        }
        if self.recording.is_none() {
            let done = self.fence.wait_pending(completed, block);
            assert(crate::renderer::dx12::sync::waits(old(self).fence, completed, block, done));
            match done {
                Err(error) => {
                    return Err(error);
                },
                Ok(nothing) => {
                    assert(nothing == ());
                },
            }
        }
        self.layers.open_texture(layer, open)
    }

    /// The second step: what the layer is drawn from, if anything, and the place
    /// of its view.
    pub fn source(&self, layer: u32, tex: Dx12Tex, held: bool) -> (source: Option<(usize, u32)>)
        ensures
            source == match source_of(self@.layers, layer, tex, held) {
                Some(source) => Some((source, srv_slot(layer))),
                None => None,
            },
    {
        let slot: u32 = if layer < MAX_LAYER_SRVS - 1 {
            layer
        } else {
            MAX_LAYER_SRVS - 1
        };
        let good = match self.layers.last_good.get(&layer) {
            Some(good) => Some(good.resource),
            None => None,
        };
        match dx12_mailbox_action(held, good.is_some()) {
            Dx12MailboxAction::Skip => None,
            Dx12MailboxAction::DrawLastGood => match good {
                Some(resource) => Some((resource, slot)),
                None => None,
            },
            Dx12MailboxAction::DrawSharedAndSnapshot => Some((tex.resource, slot)),
        }
    }

    /// Starts the list of a buffer, unless a list is being made.
    fn start(&mut self, index: u32, backbuffer: usize, out: &mut Vec<Command>)
        requires
            old(self)@.wf(),
            index < MAX_RENDER_TARGETS,
        ensures
            final(self)@.wf(),
            old(self)@.recording is Some ==> final(self)@ == old(self)@ && final(out)@ == old(
                out,
            )@,
            old(self)@.recording is None ==> final(self)@ == old(self)@.started(index, backbuffer)
                && final(out)@ == old(out)@ + start_commands(
                index,
                backbuffer,
                old(self)@.bb_state[index as int],
            ),
    {
        if self.recording.is_some() {
            return ;
        }
        let stored: u32 = self.bb_state[index as usize];
        out.push(Command::Begin { index });
        if resource_barrier_needed(stored, STATE_RENDER_TARGET) {
            out.push(
                Command::Barrier { resource: backbuffer, from: stored, to: STATE_RENDER_TARGET },
            );
            self.bb_state[index as usize] = STATE_RENDER_TARGET;
        }
        out.push(Command::Target);
        self.recording = Some(Recording { index, resource: backbuffer });
        proof {
            assert(self@.bb_state =~= old(self)@.bb_state.update(
                index as int,
                STATE_RENDER_TARGET,
            ));
            assert(out@ =~= old(out)@ + start_commands(index, backbuffer, stored));
        }
    }

    /// Copies a layer's picture, where there is a texture to copy it into:
    /// `make` makes one, and may fail.
    fn snapshot_last_good<F: FnOnce(TexDesc) -> Option<usize>>(
        &mut self,
        layer: u32,
        tex: Dx12Tex,
        desc: TexDesc,
        make: F,
        out: &mut Vec<Command>,
    )
        requires
            old(self)@.wf(),
            old(self)@.layers.texture_of(layer).texture() == Some(tex),
            desc.width != 0 && desc.height != 0 && !fits(old(self)@.layers.last_good, layer, desc)
                ==> call_requires(make, (desc,)),
        ensures
            final(self)@.wf(),
            exists|made: Option<usize>| #[trigger]
                snapshot_made(old(self)@.layers.last_good, layer, desc, make, made) && {
                    match copy_target(old(self)@.layers.last_good, layer, desc, made) {
                        None => final(self)@ == old(self)@ && final(out)@ == old(out)@,
                        Some(good) => final(self)@ == old(self)@.copied(layer, good) && final(out)@
                            == old(out)@ + copy_commands(good, tex.resource, tex.left_in_psr),
                    }
                },
    {
        let ghost copies = self@.layers.last_good;
        if desc.width == 0 || desc.height == 0 {
            assert(snapshot_made(copies, layer, desc, make, None));
            return ;
        }
        let fitting = match self.layers.last_good.get(&layer) {
            Some(good) => if good.desc == desc {
                Some(*good)
            } else {
                None
            },
            None => None,
        };
        let good = match fitting {
            Some(good) => {
                assert(snapshot_made(copies, layer, desc, make, None));
                good
            },
            None => {
                let made = make(desc);
                assert(snapshot_made(copies, layer, desc, make, made));
                match made {
                    Some(resource) => LastGood { resource, desc, srv_ready: false },
                    None => {
                        return ;
                    },
                }
            },
        };
        if good.srv_ready {
            out.push(
                Command::Barrier {
                    resource: good.resource,
                    from: STATE_PIXEL_SHADER_RESOURCE,
                    to: STATE_COPY_DEST,
                },
            );
        }
        if tex.left_in_psr {
            out.push(
                Command::Barrier {
                    resource: tex.resource,
                    from: STATE_PIXEL_SHADER_RESOURCE,
                    to: STATE_COPY_SOURCE,
                },
            );
        }
        out.push(Command::Copy { source: tex.resource, target: good.resource });
        out.push(
            Command::Barrier {
                resource: good.resource,
                from: STATE_COPY_DEST,
                to: STATE_PIXEL_SHADER_RESOURCE,
            },
        );
        out.push(
            Command::Barrier {
                resource: tex.resource,
                from: STATE_COPY_SOURCE,
                to: STATE_PIXEL_SHADER_RESOURCE,
            },
        );
        self.layers.last_good.insert(layer, LastGood { srv_ready: true, ..good });
        self.layers.set_texture(layer, Dx12Tex { left_in_psr: true, ..tex });
        proof {
            assert(out@ =~= old(out)@ + copy_commands(good, tex.resource, tex.left_in_psr));
            assert(self@ =~= old(self)@.copied(layer, good));
        }
    }

    /// The third step: the commands that draw a layer from `source` into a
    /// buffer. The first of a frame starts the list; a layer that is drawn from
    /// its shared texture is copied before.
    pub fn record<F: FnOnce(TexDesc) -> Option<usize>>(
        &mut self,
        layer: u32,
        held: bool,
        index: u32,
        backbuffer: usize,
        source: usize,
        slot: u32,
        desc: TexDesc,
        make: F,
    ) -> (out: Vec<Command>)
        requires
            old(self)@.wf(),
            index < MAX_RENDER_TARGETS,
            held && old(self)@.layers.texture_of(layer).texture() is Some && desc.width != 0
                && desc.height != 0 && !fits(old(self)@.layers.last_good, layer, desc)
                ==> call_requires(make, (desc,)),
        ensures
            final(self)@.wf(),
            recorded(
                old(self)@,
                layer,
                held,
                index,
                backbuffer,
                source,
                slot,
                desc,
                make,
                final(self)@,
                out@,
            ),
    {
        let mut out: Vec<Command> = Vec::new();
        self.start(index, backbuffer, &mut out);
        let ghost begun = self@;
        let ghost first = out@;
        proof {
            assert(begun == begin(old(self)@, index, backbuffer));
            assert(first =~= begin_commands(old(self)@, index, backbuffer));
        }
        if held {
            match self.layers.texture(layer) {
                Some(tex) => {
                    self.snapshot_last_good(layer, tex, desc, make, &mut out);
                    proof {
                        let made = choose|made: Option<usize>| #[trigger]
                            snapshot_made(begun.layers.last_good, layer, desc, make, made) && {
                                match copy_target(begun.layers.last_good, layer, desc, made) {
                                    None => self@ == begun && out@ == first,
                                    Some(good) => self@ == begun.copied(layer, good) && out@
                                        == first + copy_commands(
                                        good,
                                        tex.resource,
                                        tex.left_in_psr,
                                    ),
                                }
                            };
                        assert(snapshot_made(begun.layers.last_good, layer, desc, make, made));
                    }
                },
                None => {
                    return out;
                },
            }
        }
        out.push(Command::Draw { slot, source });
        out
    }

    /// Ends the list of commands, if one is being made: the commands that end
    /// it. They are then handed to the queue, and the fence follows them.
    pub fn finish(&mut self) -> (out: Option<Vec<Command>>)
        requires
            old(self)@.wf(),
        ensures
            final(self)@.wf(),
            final(self)@ == old(self)@.ended(),
            out is Some <==> old(self)@.recording is Some,
            out matches Some(out) ==> out@ == end_commands(old(self)@.recording->0),
    {
        match self.recording {
            None => None,
            Some(recording) => {
                self.recording = None;
                self.bb_state[recording.index as usize] = STATE_PRESENT;
                let out = vec![
                    Command::Barrier {
                        resource: recording.resource,
                        from: STATE_RENDER_TARGET,
                        to: STATE_PRESENT,
                    },
                    Command::Close { index: recording.index },
                ];
                proof {
                    assert(out@ =~= end_commands(recording));
                    assert(self@.bb_state =~= old(self)@.ended().bb_state);
                }
                Some(out)
            },
        }
    }
}

/// Whether `got` is the texture of a layer, and `after` the state then.
pub open spec fn opened<E, O: FnOnce(SharedHandle) -> Result<Option<Dx12Tex>, E>>(
    before: Dx12State,
    layer: u32,
    open: O,
    after: Dx12State,
    got: Result<Option<Dx12Tex>, E>,
) -> bool {
    &&& crate::renderer::layers::opens(before.layers, layer, open, after.layers, got)
    &&& after == (Dx12State { layers: after.layers, ..before })
}

/// Whether `made` is the new texture for the copy of a layer, where one is
/// needed.
pub open spec fn snapshot_made<F: FnOnce(TexDesc) -> Option<usize>>(
    copies: Map<u32, LastGood>,
    layer: u32,
    desc: TexDesc,
    make: F,
    made: Option<usize>,
) -> bool {
    if desc.width == 0 || desc.height == 0 || fits(copies, layer, desc) {
        made is None
    } else {
        call_ensures(make, (desc,), made)
    }
}

/// The state with the list of a buffer started, if none was being made.
pub open spec fn begin(state: Dx12State, index: u32, backbuffer: usize) -> Dx12State {
    if state.recording is Some {
        state
    } else {
        state.started(index, backbuffer)
    }
}

/// The commands that start the list of a buffer, if none was being made.
pub open spec fn begin_commands(state: Dx12State, index: u32, backbuffer: usize) -> Seq<Command> {
    if state.recording is Some {
        Seq::empty()
    } else {
        start_commands(index, backbuffer, state.bb_state[index as int])
    }
}

/// Whether `out` are the commands that draw a layer, and `after` the state then.
pub open spec fn recorded<F: FnOnce(TexDesc) -> Option<usize>>(
    before: Dx12State,
    layer: u32,
    held: bool,
    index: u32,
    backbuffer: usize,
    source: usize,
    slot: u32,
    desc: TexDesc,
    make: F,
    after: Dx12State,
    out: Seq<Command>,
) -> bool {
    let begun = begin(before, index, backbuffer);
    let first = begin_commands(before, index, backbuffer);
    let texture = before.layers.texture_of(layer).texture();
    if !held {
        after == begun && out == first.push(Command::Draw { slot, source })
    } else if texture is None {
        after == begun && out == first
    } else {
        exists|made: Option<usize>| #[trigger]
            snapshot_made(before.layers.last_good, layer, desc, make, made) && match copy_target(
                before.layers.last_good,
                layer,
                desc,
                made,
            ) {
                None => after == begun && out == first.push(Command::Draw { slot, source }),
                Some(good) => after == begun.copied(layer, good) && out == (first + copy_commands(
                    good,
                    (texture->0).resource,
                    (texture->0).left_in_psr,
                )).push(Command::Draw { slot, source }),
            }
    }
}

/// The state that a resource is in after commands, if each change of it starts
/// from the state that it is in.
pub open spec fn followed(commands: Seq<Command>, resource: usize, state: u32) -> Option<u32>
    decreases commands.len(),
{
    if commands.len() == 0 {
        Some(state)
    } else {
        match followed(commands.drop_last(), resource, state) {
            None => None,
            Some(now) => match commands.last() {
                Command::Barrier { resource: changed, from, to } => if changed != resource {
                    Some(now)
                } else if from == now {
                    Some(to)
                } else {
                    None
                },
                _ => Some(now),
            },
        }
    }
}

/// Following a longer list follows its last command on its own.
proof fn lemma_followed_push(commands: Seq<Command>, last: Command, resource: usize, state: u32)
    ensures
        followed(commands.push(last), resource, state) == match followed(
            commands,
            resource,
            state,
        ) {
            None => None,
            Some(now) => match last {
                Command::Barrier { resource: changed, from, to } => if changed != resource {
                    Some(now)
                } else if from == now {
                    Some(to)
                } else {
                    None
                },
                _ => Some(now),
            },
        },
{
    assert(commands.push(last).drop_last() =~= commands);
}

/// The commands of a copy change the state of each texture only from the one
/// that it is in, and leave both in the state that they are drawn from in, which
/// is what is remembered of them.
pub proof fn law_copy_follows_states(good: LastGood, source: usize, left_in_psr: bool)
    requires
        good.resource != source,
    ensures
        followed(
            copy_commands(good, source, left_in_psr),
            good.resource,
            if good.srv_ready {
                STATE_PIXEL_SHADER_RESOURCE
            } else {
                STATE_COPY_DEST
            },
        ) == Some(STATE_PIXEL_SHADER_RESOURCE),
        followed(
            copy_commands(good, source, left_in_psr),
            source,
            if left_in_psr {
                STATE_PIXEL_SHADER_RESOURCE
            } else {
                STATE_COPY_SOURCE
            },
        ) == Some(STATE_PIXEL_SHADER_RESOURCE),
{
    let commands = copy_commands(good, source, left_in_psr);
    let good_state = if good.srv_ready {
        STATE_PIXEL_SHADER_RESOURCE
    } else {
        STATE_COPY_DEST
    };
    let source_state = if left_in_psr {
        STATE_PIXEL_SHADER_RESOURCE
    } else {
        STATE_COPY_SOURCE
    };
    lemma_follow_copy(good, source, left_in_psr, good.resource, good_state);
    lemma_follow_copy(good, source, left_in_psr, source, source_state);
}

/// Follows the commands of a copy one by one.
proof fn lemma_follow_copy(
    good: LastGood,
    source: usize,
    left_in_psr: bool,
    resource: usize,
    state: u32,
)
    requires
        good.resource != source,
        resource == good.resource && state == (if good.srv_ready {
            STATE_PIXEL_SHADER_RESOURCE
        } else {
            STATE_COPY_DEST
        }) || resource == source && state == (if left_in_psr {
            STATE_PIXEL_SHADER_RESOURCE
        } else {
            STATE_COPY_SOURCE
        }),
    ensures
        followed(copy_commands(good, source, left_in_psr), resource, state) == Some(
            STATE_PIXEL_SHADER_RESOURCE,
        ),
{
    let commands = copy_commands(good, source, left_in_psr);
    let ready = Command::Barrier {
        resource: good.resource,
        from: STATE_PIXEL_SHADER_RESOURCE,
        to: STATE_COPY_DEST,
    };
    let readable = Command::Barrier {
        resource: source,
        from: STATE_PIXEL_SHADER_RESOURCE,
        to: STATE_COPY_SOURCE,
    };
    let start = Seq::<Command>::empty();
    let one = if good.srv_ready {
        start.push(ready)
    } else {
        start
    };
    let two = if left_in_psr {
        one.push(readable)
    } else {
        one
    };
    let copy = Command::Copy { source, target: good.resource };
    let back = Command::Barrier {
        resource: good.resource,
        from: STATE_COPY_DEST,
        to: STATE_PIXEL_SHADER_RESOURCE,
    };
    let done = Command::Barrier {
        resource: source,
        from: STATE_COPY_SOURCE,
        to: STATE_PIXEL_SHADER_RESOURCE,
    };
    lemma_followed_push(start, ready, resource, state);
    lemma_followed_push(one, readable, resource, state);
    lemma_followed_push(two, copy, resource, state);
    lemma_followed_push(two.push(copy), back, resource, state);
    lemma_followed_push(two.push(copy).push(back), done, resource, state);
    assert(commands =~= two.push(copy).push(back).push(done));
}

/// A frame changes the state of its buffer only from the one that it is in, and
/// leaves it presentable: from starting the list to ending it, whatever is drawn
/// between, which does not touch the buffer.
pub proof fn law_frame_leaves_buffer_presentable(
    index: u32,
    backbuffer: usize,
    stored: u32,
    drawn: Seq<Command>,
)
    requires
        forall|i: int|
            0 <= i < drawn.len() ==> !((#[trigger] drawn[i]) matches Command::Barrier {
                resource,
                ..
            } && resource == backbuffer),
    ensures
        followed(
            start_commands(index, backbuffer, stored) + drawn + end_commands(
                Recording { index, resource: backbuffer },
            ),
            backbuffer,
            stored,
        ) == Some(STATE_PRESENT),
{
    let start = start_commands(index, backbuffer, stored);
    let begun = Command::Begin { index };
    let barrier = Command::Barrier { resource: backbuffer, from: stored, to: STATE_RENDER_TARGET };
    let empty = Seq::<Command>::empty();
    lemma_followed_push(empty, begun, backbuffer, stored);
    lemma_followed_push(empty.push(begun), Command::Target, backbuffer, stored);
    lemma_followed_push(empty.push(begun), barrier, backbuffer, stored);
    lemma_followed_push(
        empty.push(begun).push(barrier),
        Command::Target,
        backbuffer,
        stored,
    );
    if stored != STATE_RENDER_TARGET {
        assert(start =~= empty.push(begun).push(barrier).push(Command::Target));
    } else {
        assert(start =~= empty.push(begun).push(Command::Target));
    }
    lemma_followed_rest(start, drawn, backbuffer, stored);
    let all = start + drawn;
    let end = Command::Barrier { resource: backbuffer, from: STATE_RENDER_TARGET, to: STATE_PRESENT };
    let close = Command::Close { index };
    lemma_followed_push(all, end, backbuffer, stored);
    lemma_followed_push(all.push(end), close, backbuffer, stored);
    assert(all + end_commands(Recording { index, resource: backbuffer }) =~= all.push(end).push(
        close,
    ));
}

/// Commands that do not change the state of a resource leave it.
proof fn lemma_followed_rest(first: Seq<Command>, rest: Seq<Command>, resource: usize, state: u32)
    requires
        forall|i: int|
            0 <= i < rest.len() ==> !((#[trigger] rest[i]) matches Command::Barrier {
                resource: changed,
                ..
            } && changed == resource),
    ensures
        followed(first + rest, resource, state) == followed(first, resource, state),
    decreases rest.len(),
{
    if rest.len() == 0 {
        assert(first + rest =~= first);
    } else {
        let shorter = rest.drop_last();
        lemma_followed_rest(first, shorter, resource, state);
        lemma_followed_push(first + shorter, rest.last(), resource, state);
        assert((first + shorter).push(rest.last()) =~= first + rest);
    }
}

/// A layer is drawn from its shared texture exactly while it is locked, else
/// from its copy, and without one not at all.
pub proof fn law_only_locked_textures_are_drawn(
    lock_held: bool,
    has_cache: bool,
    chosen: Dx12MailboxAction,
)
    requires
        call_ensures(dx12_mailbox_action, (lock_held, has_cache), chosen),
    ensures
        chosen is DrawSharedAndSnapshot <==> lock_held,
        chosen is DrawLastGood <==> (!lock_held && has_cache),
        chosen is Skip <==> (!lock_held && !has_cache),
{
}

/// A state is changed exactly if it is another.
pub proof fn law_same_state_is_not_changed(stored: u32, after: u32, needed: bool)
    requires
        call_ensures(resource_barrier_needed, (stored, after), needed),
    ensures
        !needed <==> stored == after,
{
}

/// A texture with an area is opened as it is, with the lock that was found for
/// it, that there is none, or that none could be found; one without is none.
pub proof fn law_opened_texture_keeps_its_lock(
    resource: usize,
    desc: TexDesc,
    interop: Option<Option<usize>>,
    tex: Option<Dx12Tex>,
)
    requires
        call_ensures(open_shared, (resource, desc, interop), tex),
    ensures
        tex is None <==> (desc.width == 0 || desc.height == 0),
        tex is Some ==> tex->0.resource == resource && !tex->0.left_in_psr,
        tex is Some ==> (tex->0.lock is InteropFailed <==> interop is None),
        tex is Some ==> (tex->0.lock is NoMutex <==> (interop is Some && interop->0 is None)),
        tex is Some && interop is Some && interop->0 is Some ==> tex->0.lock == Dx12Lock::Mutex(
            interop->0->0,
        ),
{
}

/// A texture whose lock could not be found never counts as locked, and one
/// without a lock always does; neither takes one. Another counts as locked if
/// its own lock is held, or can be taken without waiting.
pub proof fn law_texture_without_interop_is_not_locked<F: FnOnce(usize, u32) -> i32>(
    holds: &mut HeldMutexes,
    lock: Dx12Lock,
    acquire: F,
    held: Option<bool>,
)
    requires
        call_ensures(with_dx12_lock::<F>, (holds, lock, acquire), held),
    ensures
        lock is InteropFailed ==> held == Some(false) && final(holds)@ == old(holds)@,
        lock is NoMutex ==> held == Some(true) && final(holds)@ == old(holds)@,
        lock matches Dx12Lock::Mutex(mutex) ==> {
            &&& old(holds)@.contains(mutex) ==> held == Some(true) && final(holds)@ == old(holds)@
            &&& !old(holds)@.contains(mutex) ==> exists|hr: i32| #[trigger]
                call_ensures(acquire, (mutex, 0u32), hr) && (hr < 0 ==> held is None) && (hr >= 0
                    ==> held == Some(hr == 0 || hr == 128))
            &&& held == Some(true) ==> final(holds)@.contains(mutex)
            &&& held != Some(true) ==> final(holds)@ == old(holds)@
        },
{
    if let Dx12Lock::Mutex(mutex) = lock {
        if !old(holds)@.contains(mutex) {
            let hr = choose|hr: i32| #[trigger]
                call_ensures(acquire, (mutex, crate::util::KEYED_MUTEX_TIMEOUT_MS), hr) && held
                    == crate::renderer::layers::lock_told(hr) && final(holds)@ == if held == Some(
                    true,
                ) {
                    old(holds)@.push(mutex)
                } else {
                    old(holds)@
                };
            assert(call_ensures(acquire, (mutex, 0u32), hr));
            if held == Some(true) {
                assert(final(holds)@.last() == mutex);
            }
        }
    }
}

/// Nothing is drawn at first: no layer has a texture or a copy, no list is being
/// made, and all eight buffers are in the state 0.
pub proof fn law_nothing_is_drawn_at_first(renderer: Dx12Renderer, layer: u32, i: int)
    requires
        call_ensures(Dx12Renderer::new, (), renderer),
        0 <= i < 8,
    ensures
        renderer@.layers.textures.get(layer) is None && renderer@.layers.last_good.get(layer)
            is None,
        renderer@.recording is None,
        renderer@.fence.fence_val == 0,
        renderer@.bb_state.len() == 8 && renderer@.bb_state[i] == 0,
{
}

/// A change of a layer's texture waits for the commands that are under way. If
/// that fails the change is lost; else it reaches its own layer, and a layer
/// whose texture is gone loses its copy too.
pub proof fn law_texture_change_waits<E, B: FnOnce(u64) -> Result<(), E>>(
    renderer: &mut Dx12Renderer,
    layer: u32,
    shared: UpdateSharedHandle,
    completed: u64,
    block: B,
    pending: bool,
    other: u32,
)
    requires
        call_ensures(
            Dx12Renderer::update_texture::<E, B>,
            (renderer, layer, shared, completed, block),
            (),
        ),
        call_ensures(RendererFence::is_pending, (&renderer.fence, completed), pending),
        other != layer,
    ensures
        final(renderer)@.fence == old(renderer)@.fence,
        final(renderer)@.recording == old(renderer)@.recording,
        final(renderer)@.bb_state == old(renderer)@.bb_state,
        final(renderer)@.layers.textures.get(other) == old(renderer)@.layers.textures.get(other),
        !pending && shared.handle is None ==> final(renderer)@.layers.textures.get(layer) is None
            && final(renderer)@.layers.last_good.get(layer) is None,
        !pending && shared.handle is Some ==> final(renderer)@.layers.textures.contains_key(layer),
        pending ==> exists|done: Result<(), E>| #[trigger]
            call_ensures(block, (old(renderer).fence.fence_val,), done) && (done is Err ==> final(renderer)@ == old(renderer)@) && (done is Ok && shared.handle is None ==> final(renderer)@.layers.textures.get(layer) is None),
{
    let done = choose|done: Result<(), E>| #[trigger]
        sync::waits(old(renderer).fence, completed, block, done) && final(renderer)@ == match done {
            Ok(_) => Dx12State {
                layers: old(renderer)@.layers.updated(layer, shared),
                ..old(renderer)@
            },
            Err(_) => old(renderer)@,
        };
    assert(sync::waits(old(renderer).fence, completed, block, done));
    if pending {
        assert(call_ensures(block, (old(renderer).fence.fence_val,), done));
    }
}

/// Nothing is drawn on a screen without an area. Only the first layer of a frame
/// waits for the frame before, and if that fails nothing changes; the list, the
/// fence and the buffers are not touched.
pub proof fn law_first_layer_waits<
    E,
    B: FnOnce(u64) -> Result<(), E>,
    O: FnOnce(SharedHandle) -> Result<Option<Dx12Tex>, E>,
>(
    renderer: &mut Dx12Renderer,
    layer: u32,
    screen: (u32, u32),
    completed: u64,
    block: B,
    open: O,
    got: Result<Option<Dx12Tex>, E>,
    pending: bool,
)
    requires
        call_ensures(
            Dx12Renderer::begin_draw::<E, B, O>,
            (renderer, layer, screen, completed, block, open),
            got,
        ),
        call_ensures(RendererFence::is_pending, (&renderer.fence, completed), pending),
    ensures
        screen.0 == 0 || screen.1 == 0 ==> got is Ok && got->Ok_0 is None && final(renderer)@
            == old(renderer)@,
        final(renderer)@.fence == old(renderer)@.fence,
        final(renderer)@.recording == old(renderer)@.recording,
        final(renderer)@.bb_state == old(renderer)@.bb_state,
        final(renderer)@.layers.last_good == old(renderer)@.layers.last_good,
        screen.0 != 0 && screen.1 != 0 && got is Ok ==> got->Ok_0 == final(renderer)@.layers.texture_of(layer).texture(),
        screen.0 != 0 && screen.1 != 0 && old(renderer)@.recording is None && pending ==> exists|
            done: Result<(), E>,
        | #[trigger]
            call_ensures(block, (old(renderer).fence.fence_val,), done) && (done is Err ==> got
                is Err && got->Err_0 == done->Err_0 && final(renderer)@ == old(renderer)@),
{
    if screen.0 != 0 && screen.1 != 0 {
        if old(renderer)@.recording is None {
            let done = choose|done: Result<(), E>| #[trigger]
                sync::waits(old(renderer).fence, completed, block, done) && match done {
                    Err(error) => got == Err::<Option<Dx12Tex>, E>(error) && final(renderer)@
                        == old(renderer)@,
                    Ok(_) => opened(old(renderer)@, layer, open, final(renderer)@, got),
                };
            assert(sync::waits(old(renderer).fence, completed, block, done));
            if pending {
                assert(call_ensures(block, (old(renderer).fence.fence_val,), done));
            }
        }
    }
}

/// A layer is drawn from its texture while it is locked, else from its copy if
/// it has one. The first seven layers have a place of their own for their view,
/// and all others share the eighth.
pub proof fn law_layers_have_their_views(
    renderer: Dx12Renderer,
    layer: u32,
    tex: Dx12Tex,
    held: bool,
    source: Option<(usize, u32)>,
)
    requires
        call_ensures(Dx12Renderer::source, (&renderer, layer, tex, held), source),
    ensures
        held ==> source is Some && (source->0).0 == tex.resource,
        !held && renderer@.layers.last_good.contains_key(layer) ==> source is Some && (source->0).0
            == renderer@.layers.last_good[layer].resource,
        !held && !renderer@.layers.last_good.contains_key(layer) ==> source is None,
        source is Some ==> (source->0).1 == (if layer < 7 {
            layer
        } else {
            7
        }),
{
}

/// The commands of a layer that is not copied are those that start the list,
/// where it is the frame's first layer, and its draw; a started list is the
/// buffer's, which is in the state 4 from then on. Buffers other than its own
/// are not touched.
pub proof fn law_first_layer_starts_the_list<F: FnOnce(TexDesc) -> Option<usize>>(
    renderer: &mut Dx12Renderer,
    layer: u32,
    index: u32,
    backbuffer: usize,
    source: usize,
    slot: u32,
    desc: TexDesc,
    make: F,
    out: Vec<Command>,
    i: int,
)
    requires
        call_ensures(
            Dx12Renderer::record::<F>,
            (renderer, layer, false, index, backbuffer, source, slot, desc, make),
            out,
        ),
        renderer@.wf(),
        index < 8,
        0 <= i < 8,
        i != index,
    ensures
        out@.last() == (Command::Draw { slot, source }),
        final(renderer)@.layers == old(renderer)@.layers,
        final(renderer)@.bb_state[i] == old(renderer)@.bb_state[i],
        old(renderer)@.recording is Some ==> out@.len() == 1 && final(renderer)@ == old(renderer)@,
        old(renderer)@.recording is None ==> {
            &&& final(renderer)@.recording is Some
            &&& final(renderer)@.recording->0.index == index
            &&& final(renderer)@.recording->0.resource == backbuffer
            &&& final(renderer)@.bb_state[index as int] == 4
            &&& out@[0] == (Command::Begin { index })
            &&& out@[out@.len() - 2] is Target
            &&& old(renderer)@.bb_state[index as int] != 4 ==> out@.len() == 4 && out@[1] == (
            Command::Barrier {
                resource: backbuffer,
                from: old(renderer)@.bb_state[index as int],
                to: 4,
            })
            &&& old(renderer)@.bb_state[index as int] == 4 ==> out@.len() == 3
        },
{
}

/// A locked layer is copied before it is drawn: its picture goes from its own
/// texture into its own copy, and both are in the state 128 afterwards, which is
/// what is remembered of them. A layer without a texture is not drawn.
pub proof fn law_locked_layer_is_copied_before_it_is_drawn<F: FnOnce(TexDesc) -> Option<usize>>(
    renderer: &mut Dx12Renderer,
    layer: u32,
    index: u32,
    backbuffer: usize,
    source: usize,
    slot: u32,
    desc: TexDesc,
    make: F,
    out: Vec<Command>,
    other: u32,
)
    requires
        call_ensures(
            Dx12Renderer::record::<F>,
            (renderer, layer, true, index, backbuffer, source, slot, desc, make),
            out,
        ),
        renderer@.wf(),
        index < 8,
        other != layer,
    ensures
        final(renderer)@.layers.textures.get(other) == old(renderer)@.layers.textures.get(other),
        final(renderer)@.layers.last_good.get(other) == old(renderer)@.layers.last_good.get(other),
        final(renderer)@.fence == old(renderer)@.fence,
        final(renderer)@.recording is Some,
        old(renderer)@.layers.texture_of(layer).texture() is Some ==> ({
            let tex = old(renderer)@.layers.texture_of(layer).texture()->0;
            let copies = old(renderer)@.layers.last_good;
            let n = out@.len();
            &&& out@.last() == (Command::Draw { slot, source })
            &&& desc.width == 0 || desc.height == 0 ==> final(renderer)@.layers == old(renderer)@.layers
            &&& desc.width != 0 && desc.height != 0 && copies.contains_key(layer)
                && copies[layer].desc == desc ==> {
                &&& final(renderer)@.layers.last_good[layer].resource == copies[layer].resource
                &&& final(renderer)@.layers.last_good[layer].desc == desc
                &&& final(renderer)@.layers.last_good[layer].srv_ready
                &&& final(renderer)@.layers.texture_of(layer).texture() == Some(
                    Dx12Tex { left_in_psr: true, ..tex },
                )
                &&& out@[n - 4] == (Command::Copy {
                    source: tex.resource,
                    target: copies[layer].resource,
                })
                &&& out@[n - 3] == (Command::Barrier {
                    resource: copies[layer].resource,
                    from: 0x400,
                    to: 0x80,
                })
                &&& out@[n - 2] == (Command::Barrier {
                    resource: tex.resource,
                    from: 0x800,
                    to: 0x80,
                })
                &&& copies[layer].srv_ready && tex.left_in_psr ==> out@[n - 6] == (
                Command::Barrier { resource: copies[layer].resource, from: 0x80, to: 0x400 })
                    && out@[n - 5] == (Command::Barrier {
                    resource: tex.resource,
                    from: 0x80,
                    to: 0x800,
                })
                &&& copies[layer].srv_ready && !tex.left_in_psr ==> out@[n - 5] == (
                Command::Barrier { resource: copies[layer].resource, from: 0x80, to: 0x400 })
                &&& !copies[layer].srv_ready && tex.left_in_psr ==> out@[n - 5] == (
                Command::Barrier { resource: tex.resource, from: 0x80, to: 0x800 })
            }
            &&& desc.width != 0 && desc.height != 0 && !(copies.contains_key(layer)
                && copies[layer].desc == desc) ==> exists|made: Option<usize>| #[trigger]
                call_ensures(make, (desc,), made) && (made is None ==> final(renderer)@.layers
                    == old(renderer)@.layers) && (made is Some ==> final(renderer)@.layers.last_good[layer] == (LastGood {
                    resource: made->0,
                    desc,
                    srv_ready: true,
                }) && out@[n - 4] == (Command::Copy { source: tex.resource, target: made->0 }))
        }),
        old(renderer)@.layers.texture_of(layer).texture() is None ==> final(renderer)@.layers
            == old(renderer)@.layers && (old(renderer)@.recording is Some ==> out@.len() == 0) && (
        old(renderer)@.recording is None ==> out@.last() is Target),
{
    let before = old(renderer)@;
    let texture = before.layers.texture_of(layer).texture();
    if texture is Some {
        let first = begin_commands(before, index, backbuffer);
        let made = choose|made: Option<usize>| #[trigger]
            snapshot_made(before.layers.last_good, layer, desc, make, made) && match copy_target(
                before.layers.last_good,
                layer,
                desc,
                made,
            ) {
                None => final(renderer)@ == begin(before, index, backbuffer) && out@ == first.push(
                    Command::Draw { slot, source },
                ),
                Some(good) => final(renderer)@ == begin(before, index, backbuffer).copied(
                    layer,
                    good,
                ) && out@ == (first + copy_commands(
                    good,
                    (texture->0).resource,
                    (texture->0).left_in_psr,
                )).push(Command::Draw { slot, source }),
            };
        assert(snapshot_made(before.layers.last_good, layer, desc, make, made));
        if desc.width != 0 && desc.height != 0 && !fits(before.layers.last_good, layer, desc) {
            assert(call_ensures(make, (desc,), made));
        }
    }
}

/// A list that is being made is ended once: its buffer goes back from the state
/// 4 to the state 0, and the list is closed; without one nothing is done.
pub proof fn law_list_is_ended_once(
    renderer: &mut Dx12Renderer,
    out: Option<Vec<Command>>,
    next: &mut Dx12Renderer,
    again: Option<Vec<Command>>,
    i: int,
)
    requires
        call_ensures(Dx12Renderer::finish, (renderer,), out),
        renderer@.wf(),
        *next == *final(renderer),
        call_ensures(Dx12Renderer::finish, (next,), again),
        0 <= i < 8,
    ensures
        out is Some <==> old(renderer)@.recording is Some,
        again is None,
        final(renderer)@.recording is None,
        final(renderer)@.layers == old(renderer)@.layers && final(renderer)@.fence == old(renderer)@.fence,
        old(renderer)@.recording matches Some(list) ==> {
            &&& out->0@.len() == 2
            &&& out->0@[0] == (Command::Barrier { resource: list.resource, from: 4, to: 0 })
            &&& out->0@[1] == (Command::Close { index: list.index })
            &&& final(renderer)@.bb_state[list.index as int] == 0
            &&& i != list.index ==> final(renderer)@.bb_state[i] == old(renderer)@.bb_state[i]
        },
{
}

} // verus!
