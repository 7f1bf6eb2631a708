//! Registry of connected clients, and the count of their sessions.

use crate::event::OverlayEvent;
use crate::event_sink::{Delivery, OverlayEventSink};
use vstd::prelude::*;

verus! {

/// Whether to take back what clients set, by the number of sessions that are left.
pub open spec fn cleans_up(remaining: usize) -> bool {
    remaining == 0
}

/// Whether to take back what clients set: when nobody is connected any more.
pub fn should_cleanup_backends(remaining_sessions: usize) -> (cleanup: bool)
    ensures
        cleanup == cleans_up(remaining_sessions),
{
    remaining_sessions == 0
}

/// The count after a session began.
pub open spec fn entered(count: usize) -> usize {
    count.wrapping_add(1)
}

/// The count after a session ended.
pub open spec fn left(count: usize) -> usize {
    (count - 1) as usize
}

/// The count after a history of sessions that began and ended.
pub open spec fn counted(history: Seq<bool>) -> usize
    decreases history.len(),
{
    if history.len() == 0 {
        0
    } else if history.last() {
        entered(counted(history.drop_last()))
    } else {
        left(counted(history.drop_last()))
    }
}

/// Counts the sessions that were accepted and have not ended.
pub struct SessionCounter {
    count: usize,
}

impl View for SessionCounter {
    type V = usize;

    closed spec fn view(&self) -> usize {
        self.count
    }
}

impl SessionCounter {
    /// No sessions.
    pub fn new() -> (counter: SessionCounter)
        ensures
            counter@ == 0,
    {
        SessionCounter { count: 0 }
    }

    /// A session begins.
    pub fn enter(&mut self)
        ensures
            final(self)@ == entered(old(self)@),
    {
        self.count = self.count.wrapping_add(1);
    }

    /// A session ends; tells how many are left.
    pub fn leave(&mut self) -> (remaining: usize)
        requires
            old(self)@ > 0,
        ensures
            remaining == left(old(self)@),
            final(self)@ == remaining,
    {
        self.count -= 1;
        self.count
    }
}

/// Names a connected client.
#[derive(Clone, Copy, PartialEq, Eq, Hash, Debug, Structural)]
pub struct ClientId {
    raw: u64,
}

impl ClientId {
    /// The number of the client.
    pub closed spec fn number(self) -> u64 {
        self.raw
    }

    /// The client with a number.
    pub fn from_raw(id: u64) -> (client: ClientId)
        ensures
            client.number() == id,
    {
        ClientId { raw: id }
    }

    /// The number of the client.
    pub fn raw(self) -> (id: u64)
        ensures
            id == self.number(),
    {
        self.raw
    }
}

/// Registry of connected clients and the layers that they own.
pub struct ClientRegistry {
    inner: OverlayEventSink,
}

/// What the registry knows.
#[verifier::ext_equal]
pub struct RegistryState {
    /// Number of the next client.
    pub next: u64,
    /// Connected clients, in the order in which they came.
    pub sinks: Seq<u64>,
    /// Owner of each bound layer.
    pub layers: Map<u32, u64>,
}

impl View for ClientRegistry {
    type V = RegistryState;

    closed spec fn view(&self) -> RegistryState {
        RegistryState {
            next: self.inner@.next,
            sinks: self.inner@.sinks,
            layers: self.inner@.layers,
        }
    }
}

impl RegistryState {
    /// The bindings without those of a client.
    pub open spec fn layers_without(self, client: u64) -> Map<u32, u64> {
        self.layers.remove_keys(
            Set::new(|layer: u32| self.layers.contains_key(layer) && self.layers[layer] == client),
        )
    }
}

impl ClientRegistry {
    /// An empty registry.
    pub fn new() -> (registry: ClientRegistry)
        ensures
            registry@ == (RegistryState { next: 1, sinks: Seq::empty(), layers: Map::empty() }),
    {
        ClientRegistry { inner: OverlayEventSink::new() }
    }

    /// Registers a client.
    pub fn register(&mut self) -> (id: ClientId)
        ensures
            id.number() == old(self)@.next,
            final(self)@ == (RegistryState {
                next: if old(self)@.next < u64::MAX {
                    (old(self)@.next + 1) as u64
                } else {
                    old(self)@.next
                },
                sinks: old(self)@.sinks.push(id.number()),
                ..old(self)@
            }),
    {
        let id: u64 = self.inner.add();
        ClientId { raw: id }
    }

    /// Removes a client, together with its layer bindings.
    pub fn unregister(&mut self, id: ClientId)
        ensures
            final(self)@ == (RegistryState {
                sinks: crate::event_sink::others(old(self)@.sinks, id.number()),
                layers: old(self)@.layers_without(id.number()),
                ..old(self)@
            }),
    {
        self.inner.remove(id.raw);
    }

    /// Whether any client is connected.
    pub fn has_clients(&self) -> (any: bool)
        ensures
            any == (self@.sinks.len() > 0),
    {
        self.inner.connected()
    }

    /// Binds a layer to a client if it has no owner yet.
    pub fn bind_layer(&mut self, client: ClientId, layer: u32)
        ensures
            final(self)@ == (RegistryState {
                layers: if old(self)@.layers.contains_key(layer) {
                    old(self)@.layers
                } else {
                    old(self)@.layers.insert(layer, client.number())
                },
                ..old(self)@
            }),
    {
        self.inner.bind_layer(client.raw, layer);
    }

    /// Removes every layer binding of a client.
    pub fn unbind_client_layers(&mut self, client: ClientId)
        ensures
            final(self)@ == (RegistryState {
                layers: old(self)@.layers_without(client.number()),
                ..old(self)@
            }),
    {
        let _unbound = self.inner.unbind_client_layers(client.raw);
    }

    /// The owner of a layer.
    pub fn owner_of_layer(&self, layer: u32) -> (owner: Option<ClientId>)
        ensures
            match owner {
                Some(client) => self@.layers.contains_key(layer) && client.number()
                    == self@.layers[layer],
                None => !self@.layers.contains_key(layer),
            },
    {
        match self.inner.owner_of_layer(layer) {
            Some(raw) => Some(ClientId { raw }),
            None => None,
        }
    }

    /// Delivers an event to one client, if it is connected.
    pub fn emit_to(&self, client: ClientId, event: OverlayEvent) -> (out: Vec<Delivery>)
        ensures
            out@ == (if self@.sinks.contains(client.number()) {
                seq![Delivery { client: client.number(), event }]
            } else {
                seq![]
            }),
    {
        self.inner.emit_to(client.raw, event)
    }

    /// Delivers an event to every connected client.
    pub fn broadcast(&self, event: OverlayEvent) -> (out: Vec<Delivery>)
        ensures
            out@ == self@.sinks.map_values(|client: u64| Delivery { client, event }),
    {
        self.inner.broadcast(event)
    }
}

/// However sessions begin and end, the counter holds how many are open, each end
/// finds one to end, and an end calls for cleaning up exactly when it leaves no
/// session open.
pub proof fn law_cleanup_after_the_last_session(history: Seq<bool>)
    requires
        crate::util::orderly(history),
        history.len() <= usize::MAX,
    ensures
        counted(history) == crate::util::ongoing(history),
        history.len() > 0 && !history.last() ==> counted(history.drop_last()) > 0,
        cleans_up(counted(history)) <==> crate::util::ongoing(history) == 0,
        crate::util::ongoing(history) <= history.len(),
    decreases history.len(),
{
    if history.len() > 0 {
        law_cleanup_after_the_last_session(history.drop_last());
    }
}

/// A session that begins counts one more, one that ends one less and tells how many are
/// left; what clients set is taken back when that is none.
pub proof fn law_sessions_are_counted(
    counter: &mut SessionCounter,
    after: &mut SessionCounter,
    fresh: SessionCounter,
    remaining: usize,
    cleanup: bool,
)
    requires
        counter@ < usize::MAX,
        call_ensures(SessionCounter::enter, (counter,), ()),
        *after == *final(counter),
        call_ensures(SessionCounter::leave, (after,), remaining),
        call_ensures(should_cleanup_backends, (remaining,), cleanup),
        call_ensures(SessionCounter::new, (), fresh),
    ensures
        final(counter)@ == old(counter)@ + 1,
        final(after)@ == old(counter)@,
        remaining == old(counter)@,
        cleanup <==> old(counter)@ == 0,
        fresh@ == 0,
{
}

/// The number of a client leads back to the client, and each new client has a number
/// that none before it had, as long as there are numbers.
pub proof fn law_registered_clients_are_told_apart(
    registry: &mut ClientRegistry,
    next: &mut ClientRegistry,
    first: ClientId,
    second: ClientId,
    raw: u64,
    back: ClientId,
    any: bool,
)
    requires
        registry@.next < u64::MAX,
        call_ensures(ClientRegistry::register, (registry,), first),
        *next == *final(registry),
        call_ensures(ClientRegistry::register, (next,), second),
        call_ensures(ClientId::raw, (first,), raw),
        call_ensures(ClientId::from_raw, (raw,), back),
        call_ensures(ClientRegistry::has_clients, (&*final(registry),), any),
    ensures
        back.number() == first.number(),
        second.number() == first.number() + 1,
        final(next)@.sinks == old(registry)@.sinks.push(first.number()).push(second.number()),
        final(next)@.layers == old(registry)@.layers,
        any,
{
}

/// A free layer belongs to the first client that binds it, until that client unbinds its
/// layers or leaves; the layers of others are untouched.
pub proof fn law_bound_layer_belongs_to_its_first_binder(
    registry: &mut ClientRegistry,
    unbound: &mut ClientRegistry,
    client: ClientId,
    layer: u32,
    other: u32,
    owner: Option<ClientId>,
    later: Option<ClientId>,
)
    requires
        call_ensures(ClientRegistry::bind_layer, (registry, client, layer), ()),
        call_ensures(ClientRegistry::owner_of_layer, (&*final(registry), layer), owner),
        *unbound == *final(registry),
        call_ensures(ClientRegistry::unbind_client_layers, (unbound, client), ()),
        call_ensures(ClientRegistry::owner_of_layer, (&*final(unbound), layer), later),
        other != layer,
    ensures
        owner is Some,
        !old(registry)@.layers.contains_key(layer) ==> (owner->0).number() == client.number()
            && later is None,
        old(registry)@.layers.contains_key(layer) ==> (owner->0).number() == old(
            registry,
        )@.layers[layer],
        final(unbound)@.layers.contains_key(other) <==> old(registry)@.layers.contains_key(other)
            && old(registry)@.layers[other] != client.number(),
        final(unbound)@.layers.contains_key(other) ==> final(unbound)@.layers[other] == old(
            registry,
        )@.layers[other],
        final(unbound)@.sinks == old(registry)@.sinks,
{
}

/// A client that left gets nothing, and everybody else gets everything: an event for
/// one client reaches that one alone, an event for all reaches each once.
pub proof fn law_events_reach_the_registered(
    registry: &mut ClientRegistry,
    gone: ClientId,
    client: ClientId,
    event: OverlayEvent,
    none: Vec<Delivery>,
    one: Vec<Delivery>,
    all: Vec<Delivery>,
    i: int,
)
    requires
        call_ensures(ClientRegistry::unregister, (registry, gone), ()),
        call_ensures(ClientRegistry::emit_to, (&*final(registry), gone, event), none),
        call_ensures(ClientRegistry::emit_to, (&*final(registry), client, event), one),
        call_ensures(ClientRegistry::broadcast, (&*final(registry), event), all),
        client.number() != gone.number(),
    ensures
        none@.len() == 0,
        one@.len() == (if old(registry)@.sinks.contains(client.number()) {
            1nat
        } else {
            0nat
        }),
        one@.len() == 1 ==> one@[0].client == client.number() && one@[0].event == event,
        all@.len() == final(registry)@.sinks.len(),
        0 <= i < all@.len() ==> all@[i].client == final(registry)@.sinks[i] && all@[i].client
            != gone.number() && all@[i].event == event,
        final(registry)@.sinks.contains(client.number()) == old(registry)@.sinks.contains(
            client.number(),
        ),
{
    let state = crate::event_sink::SinkState {
        next: 0,
        sinks: old(registry)@.sinks,
        layers: Map::empty(),
        rects: Map::empty(),
        focus_layer: Map::empty(),
        shift_down: false,
        left_down: false,
    };
    crate::event_sink::law_removal_is_exact(state, gone.number(), client.number(), 0);
    crate::event_sink::law_removal_is_exact(state, gone.number(), gone.number(), 0);
    if 0 <= i < all@.len() {
        assert(final(registry)@.sinks.contains(final(registry)@.sinks[i]));
    }
}

} // verus!
