//! Registry of connected clients, and the routing of events to them.
//!
//! A client owns layers. Window events go to every client; an input event goes
//! to the owner of the layer it hits, and is dropped where nobody owns that
//! layer.

use crate::event::{
    CursorAction, CursorEvent, CursorInput, CursorInputState, InputEvent, InputPosition,
    KeyInputState, KeyboardInput, OverlayEvent, WindowEvent,
};
use crate::tables::{keys_of, listed};
use std::collections::HashMap;
use vstd::prelude::*;

verus! {

broadcast use vstd::std_specs::hash::group_hash_axioms;

/// Place of a layer in its window: `(layer, x, y, width, height)`.
pub type LayerRect = (u32, i32, i32, u32, u32);

/// Virtual key code of Shift.
pub const VK_SHIFT: u8 = 0x10;

/// Virtual key code of Tab.
pub const VK_TAB: u8 = 0x09;

/// An event on its way to one client.
#[derive(Debug, Clone, Copy, PartialEq, Eq, Structural)]
pub struct Delivery {
    pub client: u64,
    pub event: OverlayEvent,
}

/// Event sink for the overlay system.
pub struct OverlayEventSink {
    next: u64,
    sinks: Vec<u64>,
    layers: HashMap<u32, u64>,
    rects: HashMap<u32, Vec<LayerRect>>,
    focus_layer: HashMap<u32, u32>,
    shift_down: bool,
    left_down: bool,
}

/// What a sink knows.
#[verifier::ext_equal]
pub struct SinkState {
    /// Id of the next client.
    pub next: u64,
    /// Connected clients, in the order in which they came.
    pub sinks: Seq<u64>,
    /// Owner of each bound layer.
    pub layers: Map<u32, u64>,
    /// Layer rects of each window, lowest layer first.
    pub rects: Map<u32, Seq<LayerRect>>,
    /// Layer of each window that the cursor hit last.
    pub focus_layer: Map<u32, u32>,
    /// Shift is held.
    pub shift_down: bool,
    /// The left button is held.
    pub left_down: bool,
}

/// Far edge of an interval that starts at `start` and is `len` long. A length
/// from 2^31 on counts as negative, and the edge stays within the range of `i32`.
pub open spec fn far_edge(start: i32, len: u32) -> int {
    let signed = if len < 0x8000_0000 { len as int } else { len - 0x1_0000_0000 };
    let edge = start + signed;
    if edge > i32::MAX {
        i32::MAX as int
    } else if edge < i32::MIN {
        i32::MIN as int
    } else {
        edge
    }
}

/// Whether a rect holds a point.
pub open spec fn holds(rect: LayerRect, point: InputPosition) -> bool {
    &&& rect.1 <= point.x < far_edge(rect.1, rect.3)
    &&& rect.2 <= point.y < far_edge(rect.2, rect.4)
}

/// Whether a rect belongs to a bound layer and holds the point.
pub open spec fn hit(rect: LayerRect, layers: Map<u32, u64>, point: InputPosition) -> bool {
    layers.contains_key(rect.0) && holds(rect, point)
}

/// The last of `rects` that is hit, as a layer.
pub open spec fn topmost_hit(
    rects: Seq<LayerRect>,
    layers: Map<u32, u64>,
    point: InputPosition,
) -> Option<u32>
    decreases rects.len(),
{
    if rects.len() == 0 {
        None
    } else if hit(rects.last(), layers, point) {
        Some(rects.last().0)
    } else {
        topmost_hit(rects.drop_last(), layers, point)
    }
}

/// The last of `rects` whose layer has an owner, as a layer.
pub open spec fn topmost_bound(rects: Seq<LayerRect>, layers: Map<u32, u64>) -> Option<u32>
    decreases rects.len(),
{
    if rects.len() == 0 {
        None
    } else if layers.contains_key(rects.last().0) {
        Some(rects.last().0)
    } else {
        topmost_bound(rects.drop_last(), layers)
    }
}

/// Where the first of `rects` that belongs to `layer` starts, or the origin.
pub open spec fn layer_origin(rects: Seq<LayerRect>, layer: u32) -> (i32, i32)
    decreases rects.len(),
{
    if rects.len() == 0 {
        (0, 0)
    } else if rects.first().0 == layer {
        (rects.first().1, rects.first().2)
    } else {
        layer_origin(rects.drop_first(), layer)
    }
}

/// The left button goes down.
pub open spec fn presses_left(event: CursorEvent) -> bool {
    event matches CursorEvent::Action { state, action } && state is Pressed && action is Left
}

/// The left button goes up.
pub open spec fn releases_left(event: CursorEvent) -> bool {
    event matches CursorEvent::Action { state, action } && state is Released && action is Left
}

/// The Shift key goes down or up.
pub open spec fn is_shift(key: KeyboardInput) -> bool {
    key matches KeyboardInput::Key { key, .. } && key.code == VK_SHIFT
}

/// The Tab key goes down.
pub open spec fn presses_tab(key: KeyboardInput) -> bool {
    key matches KeyboardInput::Key { key, state } && key.code == VK_TAB && state is Pressed
}

impl SinkState {
    /// The owner of a layer.
    pub open spec fn owner(self, layer: u32) -> Option<u64> {
        self.layers.get(layer)
    }

    /// The state with a layer bound to a client, unless it has an owner already.
    pub open spec fn bind(self, client: u64, layer: u32) -> SinkState {
        if self.layers.contains_key(layer) {
            self
        } else {
            SinkState { layers: self.layers.insert(layer, client), ..self }
        }
    }

    /// Topmost bound layer of a window that holds a point.
    pub open spec fn hit_layer(self, hwnd: u32, point: InputPosition) -> Option<u32> {
        if self.rects.contains_key(hwnd) {
            topmost_hit(self.rects[hwnd], self.layers, point)
        } else {
            None
        }
    }

    /// The layer that a cursor event of a window is for. While the left button
    /// is held, and through its release, that is the layer that has the focus.
    pub open spec fn cursor_layer(self, hwnd: u32, cursor: CursorInput) -> Option<u32> {
        if self.left_down && !presses_left(cursor.event) && self.focus_layer.contains_key(hwnd) {
            Some(self.focus_layer[hwnd])
        } else {
            self.hit_layer(hwnd, cursor.window)
        }
    }

    /// The state after a cursor event.
    pub open spec fn after_cursor(self, hwnd: u32, cursor: CursorInput) -> SinkState {
        SinkState {
            left_down: if presses_left(cursor.event) {
                true
            } else if releases_left(cursor.event) {
                false
            } else {
                self.left_down
            },
            focus_layer: match self.cursor_layer(hwnd, cursor) {
                Some(layer) => self.focus_layer.insert(hwnd, layer),
                None => self.focus_layer,
            },
            ..self
        }
    }

    /// The cursor event as the owner of the layer that it is for sees it.
    pub open spec fn localized(self, hwnd: u32, cursor: CursorInput, layer: u32) -> CursorInput {
        let origin = if self.rects.contains_key(hwnd) {
            layer_origin(self.rects[hwnd], layer)
        } else {
            (0, 0)
        };
        CursorInput { client: cursor.window.seen_from(origin), ..cursor }
    }

    /// The state after a keyboard event.
    pub open spec fn after_keyboard(self, key: KeyboardInput) -> SinkState {
        match key {
            KeyboardInput::Key { key, state } if key.code == VK_SHIFT => SinkState {
                shift_down: state is Pressed,
                ..self
            },
            _ => self,
        }
    }

    /// The layer of a window that keyboard input follows.
    pub open spec fn keyboard_layer(self, hwnd: u32) -> Option<u32> {
        if self.focus_layer.contains_key(hwnd) {
            Some(self.focus_layer[hwnd])
        } else if self.rects.contains_key(hwnd) && topmost_bound(
            self.rects[hwnd],
            self.layers,
        ) is Some {
            topmost_bound(self.rects[hwnd], self.layers)
        } else if self.layers.contains_key(1) {
            Some(1)
        } else if self.layers.contains_key(0) {
            Some(0)
        } else {
            None
        }
    }

    /// The client that a keyboard event of a window is for. Shift+Tab is for the
    /// shell on layer 0, or else for the owner of layer 1.
    pub open spec fn keyboard_owner(self, hwnd: u32, key: KeyboardInput) -> Option<u64> {
        if presses_tab(key) && self.shift_down {
            if self.layers.contains_key(0) {
                self.owner(0)
            } else {
                self.owner(1)
            }
        } else {
            match self.keyboard_layer(hwnd) {
                Some(layer) => self.owner(layer),
                None => None,
            }
        }
    }

    /// Delivery to one client, if it is connected.
    pub open spec fn deliver(self, client: u64, event: OverlayEvent) -> Seq<Delivery> {
        if self.sinks.contains(client) {
            seq![Delivery { client, event }]
        } else {
            seq![]
        }
    }

    /// Delivery to every connected client.
    pub open spec fn broadcast(self, event: OverlayEvent) -> Seq<Delivery> {
        self.sinks.map_values(|client: u64| Delivery { client, event })
    }

    /// The state after an event.
    pub open spec fn after(self, event: OverlayEvent) -> SinkState {
        match event {
            OverlayEvent::Window { id, event: WindowEvent::Input(InputEvent::Cursor(cursor)) } => {
                self.after_cursor(id, cursor)
            },
            OverlayEvent::Window { event: WindowEvent::Input(InputEvent::Keyboard(key)), .. } => {
                self.after_keyboard(key)
            },
            _ => self,
        }
    }

    /// What an event makes the sink deliver, in order.
    pub open spec fn deliveries(self, event: OverlayEvent) -> Seq<Delivery> {
        match event {
            OverlayEvent::Window { id, event: WindowEvent::Input(InputEvent::Cursor(cursor)) } => {
                match self.cursor_layer(id, cursor) {
                    Some(layer) if self.layers.contains_key(layer) => self.deliver(
                        self.layers[layer],
                        OverlayEvent::Window {
                            id,
                            event: WindowEvent::Input(
                                InputEvent::Cursor(self.localized(id, cursor, layer)),
                            ),
                        },
                    ),
                    _ => seq![],
                }
            },
            OverlayEvent::Window { id, event: WindowEvent::Input(InputEvent::Keyboard(key)) } => {
                match self.after_keyboard(key).keyboard_owner(id, key) {
                    Some(owner) => if is_shift(key) && self.layers.contains_key(0)
                        && self.layers[0] != owner {
                        self.deliver(self.layers[0], event) + self.deliver(owner, event)
                    } else {
                        self.deliver(owner, event)
                    },
                    None => seq![],
                }
            },
            _ => self.broadcast(event),
        }
    }

    /// The layers that a client owns.
    pub open spec fn layers_of(self, client: u64) -> Set<u32> {
        Set::new(|layer: u32| self.layers.contains_key(layer) && self.layers[layer] == client)
    }
}

impl View for OverlayEventSink {
    type V = SinkState;

    closed spec fn view(&self) -> SinkState {
        SinkState {
            next: self.next,
            sinks: self.sinks@,
            layers: self.layers@,
            rects: self.rects@.map_values(|rects: Vec<LayerRect>| rects@),
            focus_layer: self.focus_layer@,
            shift_down: self.shift_down,
            left_down: self.left_down,
        }
    }
}

/// Far edge of an interval, within the range of `i32`.
fn edge(start: i32, len: u32) -> (end: i32)
    ensures
        end == far_edge(start, len),
{
    let signed: i64 = if len < 0x8000_0000 {
        len as i64
    } else {
        len as i64 - 0x1_0000_0000
    };
    let sum: i64 = start as i64 + signed;
    if sum > i32::MAX as i64 {
        i32::MAX
    } else if sum < i32::MIN as i64 {
        i32::MIN
    } else {
        sum as i32
    }
}

impl OverlayEventSink {
    /// An empty registry.
    pub fn new() -> (sink: OverlayEventSink)
        ensures
            sink@ == (SinkState {
                next: 1,
                sinks: Seq::empty(),
                layers: Map::empty(),
                rects: Map::empty(),
                focus_layer: Map::empty(),
                shift_down: false,
                left_down: false,
            }),
    {
        let sink = OverlayEventSink {
            next: 1,
            sinks: Vec::new(),
            layers: HashMap::new(),
            rects: HashMap::new(),
            focus_layer: HashMap::new(),
            shift_down: false,
            left_down: false,
        };
        assert(sink@.rects =~= Map::empty());
        sink
    }

    /// Whether any client is connected.
    pub fn connected(&self) -> (any: bool)
        ensures
            any == (self@.sinks.len() > 0),
    {
        !self.sinks.is_empty()
    }

    /// Publishes the layer rects of a window for hit-testing.
    pub fn set_layer_rects(&mut self, hwnd: u32, rects: Vec<LayerRect>)
        ensures
            final(self)@ == (SinkState {
                rects: old(self)@.rects.insert(hwnd, rects@),
                ..old(self)@
            }),
    {
        self.rects.insert(hwnd, rects);
        assert(self@.rects =~= old(self)@.rects.insert(hwnd, rects@));
    }

    /// Binds `layer` to `client` if it has no owner yet.
    pub fn bind_layer(&mut self, client: u64, layer: u32)
        ensures
            final(self)@ == old(self)@.bind(client, layer),
    {
        if !self.layers.contains_key(&layer) {
            self.layers.insert(layer, client);
        }
    }

    /// The owner of `layer`.
    pub fn owner_of_layer(&self, layer: u32) -> (owner: Option<u64>)
        ensures
            owner == self@.owner(layer),
    {
        match self.layers.get(&layer) {
            Some(owner) => Some(*owner),
            None => None,
        }
    }

    /// Registers a client and hands out its id.
    pub fn add(&mut self) -> (id: u64)
        ensures
            id == old(self)@.next,
            final(self)@ == (SinkState {
                next: if id < u64::MAX { (id + 1) as u64 } else { id },
                sinks: old(self)@.sinks.push(id),
                ..old(self)@
            }),
    {
        let id: u64 = self.next;
        self.next = self.next.saturating_add(1);
        self.sinks.push(id);
        id
    }

    /// Topmost bound layer of a window that holds a point. Layers without an
    /// owner let the point through to the layer underneath.
    pub fn hit_test(&self, hwnd: u32, window: InputPosition) -> (layer: Option<u32>)
        ensures
            layer == self@.hit_layer(hwnd, window),
    {
        let rects = match self.rects.get(&hwnd) {
            Some(rects) => rects,
            None => {
                return None;
            },
        };
        let mut i: usize = rects.len();
        assert(rects@.take(i as int) =~= rects@);
        while i > 0
            invariant
                i <= rects@.len(),
                self@.rects.contains_key(hwnd),
                self@.rects[hwnd] == rects@,
                topmost_hit(rects@.take(i as int), self.layers@, window) == topmost_hit(
                    rects@,
                    self.layers@,
                    window,
                ),
            decreases i,
        {
            i -= 1;
            let (layer, x, y, w, h) = rects[i];
            assert(rects@.take(i + 1).drop_last() =~= rects@.take(i as int));
            if self.layers.contains_key(&layer) && window.x >= x && window.y >= y && window.x
                < edge(x, w) && window.y < edge(y, h) {
                return Some(layer);
            }
        }
        None
    }

    /// Topmost layer of a window that has an owner.
    fn topmost_owned(&self, hwnd: u32) -> (layer: Option<u32>)
        ensures
            layer == (if self@.rects.contains_key(hwnd) {
                topmost_bound(self@.rects[hwnd], self@.layers)
            } else {
                None
            }),
    {
        let rects = match self.rects.get(&hwnd) {
            Some(rects) => rects,
            None => {
                return None;
            },
        };
        let mut i: usize = rects.len();
        assert(rects@.take(i as int) =~= rects@);
        while i > 0
            invariant
                i <= rects@.len(),
                self@.rects.contains_key(hwnd),
                self@.rects[hwnd] == rects@,
                topmost_bound(rects@.take(i as int), self.layers@) == topmost_bound(
                    rects@,
                    self.layers@,
                ),
            decreases i,
        {
            i -= 1;
            let layer: u32 = rects[i].0;
            assert(rects@.take(i + 1).drop_last() =~= rects@.take(i as int));
            if self.layers.contains_key(&layer) {
                return Some(layer);
            }
        }
        None
    }

    /// Where a layer of a window starts.
    fn origin_of(&self, hwnd: u32, layer: u32) -> (origin: (i32, i32))
        ensures
            origin == (if self@.rects.contains_key(hwnd) {
                layer_origin(self@.rects[hwnd], layer)
            } else {
                (0, 0)
            }),
    {
        let rects = match self.rects.get(&hwnd) {
            Some(rects) => rects,
            None => {
                return (0, 0);
            },
        };
        let mut i: usize = 0;
        assert(rects@.skip(0) =~= rects@);
        while i < rects.len()
            invariant
                i <= rects@.len(),
                self@.rects.contains_key(hwnd),
                self@.rects[hwnd] == rects@,
                layer_origin(rects@.skip(i as int), layer) == layer_origin(rects@, layer),
            decreases rects@.len() - i,
        {
            let (lid, x, y, _w, _h) = rects[i];
            assert(rects@.skip(i as int).drop_first() =~= rects@.skip(i + 1));
            if lid == layer {
                return (x, y);
            }
            i += 1;
        }
        (0, 0)
    }

    /// The layer of a window that keyboard input follows.
    fn keyboard_target(&self, hwnd: u32) -> (layer: Option<u32>)
        ensures
            layer == self@.keyboard_layer(hwnd),
    {
        if let Some(layer) = self.focus_layer.get(&hwnd) {
            return Some(*layer);
        }
        if let Some(layer) = self.topmost_owned(hwnd) {
            return Some(layer);
        }
        if self.layers.contains_key(&1) {
            Some(1)
        } else if self.layers.contains_key(&0) {
            Some(0)
        } else {
            None
        }
    }

    /// Delivers `event` to a single client, if it is connected.
    pub fn emit_to(&self, client: u64, event: OverlayEvent) -> (out: Vec<Delivery>)
        ensures
            out@ == self@.deliver(client, event),
    {
        let mut out: Vec<Delivery> = Vec::new();
        let mut i: usize = 0;
        while i < self.sinks.len()
            invariant
                i <= self.sinks@.len(),
                out@.len() == 0,
                forall|j: int| 0 <= j < i ==> self.sinks@[j] != client,
            decreases self.sinks@.len() - i,
        {
            if self.sinks[i] == client {
                assert(self@.sinks[i as int] == client);
                out.push(Delivery { client, event });
                assert(out@ =~= self@.deliver(client, event));
                return out;
            }
            i += 1;
        }
        assert(!self@.sinks.contains(client));
        out
    }

    /// Sends an event on its way. Window events are for every client. An input
    /// event is for the owner of the topmost layer under the cursor; without
    /// such an owner it is dropped.
    pub fn emit(&mut self, event: OverlayEvent) -> (out: Vec<Delivery>)
        ensures
            final(self)@ == old(self)@.after(event),
            out@ == old(self)@.deliveries(event),
    {
        let OverlayEvent::Window { id, event: what } = event;
        if let WindowEvent::Input(_) = what {
            return self.emit_input(event);
        }
        self.broadcast(event)
    }

    /// Delivers an event to every connected client.
    pub fn broadcast(&self, event: OverlayEvent) -> (out: Vec<Delivery>)
        ensures
            out@ == self@.broadcast(event),
    {
        let mut out: Vec<Delivery> = Vec::new();
        let mut i: usize = 0;
        while i < self.sinks.len()
            invariant
                i <= self.sinks@.len(),
                out@ =~= self@.broadcast(event).take(i as int),
            decreases self.sinks@.len() - i,
        {
            out.push(Delivery { client: self.sinks[i], event });
            i += 1;
        }
        assert(out@ =~= self@.broadcast(event));
        out
    }

    /// Routes an input event; any other event goes nowhere.
    fn emit_input(&mut self, event: OverlayEvent) -> (out: Vec<Delivery>)
        ensures
            final(self)@ == (if event.what() is Input {
                old(self)@.after(event)
            } else {
                old(self)@
            }),
            out@ == (if event.what() is Input {
                old(self)@.deliveries(event)
            } else {
                seq![]
            }),
    {
        let OverlayEvent::Window { id: hwnd, event: what } = event;
        match what {
            WindowEvent::Input(InputEvent::Cursor(cursor)) => self.emit_cursor(hwnd, cursor),
            WindowEvent::Input(InputEvent::Keyboard(key)) => self.emit_keyboard(hwnd, key),
            _ => Vec::new(),
        }
    }

    /// Routes a cursor event.
    fn emit_cursor(&mut self, hwnd: u32, cursor: CursorInput) -> (out: Vec<Delivery>)
        ensures
            final(self)@ == old(self)@.after_cursor(hwnd, cursor),
            out@ == old(self)@.deliveries(
                OverlayEvent::Window {
                    id: hwnd,
                    event: WindowEvent::Input(InputEvent::Cursor(cursor)),
                },
            ),
    {
        let pressed_left = match cursor.event {
            CursorEvent::Action {
                state: CursorInputState::Pressed { .. },
                action: CursorAction::Left,
            } => true,
            _ => false,
        };
        let released_left = match cursor.event {
            CursorEvent::Action {
                state: CursorInputState::Released,
                action: CursorAction::Left,
            } => true,
            _ => false,
        };
        let held: Option<u32> = if self.left_down && !pressed_left {
            match self.focus_layer.get(&hwnd) {
                Some(layer) => Some(*layer),
                None => None,
            }
        } else {
            None
        };
        let layer: Option<u32> = match held {
            Some(layer) => Some(layer),
            None => self.hit_test(hwnd, cursor.window),
        };
        assert(layer == old(self)@.cursor_layer(hwnd, cursor));
        if pressed_left {
            self.left_down = true;
        } else if released_left {
            self.left_down = false;
        }
        let layer: u32 = match layer {
            Some(layer) => layer,
            None => {
                return Vec::new();
            },
        };
        self.focus_layer.insert(hwnd, layer);
        match self.owner_of_layer(layer) {
            Some(owner) => {
                let origin = self.origin_of(hwnd, layer);
                let client = cursor.window.relative_to(origin);
                let seen = CursorInput { event: cursor.event, client, window: cursor.window };
                self.emit_to(
                    owner,
                    OverlayEvent::Window {
                        id: hwnd,
                        event: WindowEvent::Input(InputEvent::Cursor(seen)),
                    },
                )
            },
            None => Vec::new(),
        }
    }

    /// Routes a keyboard event.
    fn emit_keyboard(&mut self, hwnd: u32, key: KeyboardInput) -> (out: Vec<Delivery>)
        ensures
            final(self)@ == old(self)@.after_keyboard(key),
            out@ == old(self)@.deliveries(
                OverlayEvent::Window {
                    id: hwnd,
                    event: WindowEvent::Input(InputEvent::Keyboard(key)),
                },
            ),
    {
        let event = OverlayEvent::Window {
            id: hwnd,
            event: WindowEvent::Input(InputEvent::Keyboard(key)),
        };
        let mut shift = false;
        let mut shift_tab = false;
        if let KeyboardInput::Key { key: pressed, state } = key {
            let down = match state {
                KeyInputState::Pressed => true,
                KeyInputState::Released => false,
            };
            if pressed.code == VK_SHIFT {
                self.shift_down = down;
                shift = true;
            } else if pressed.code == VK_TAB && down && self.shift_down {
                shift_tab = true;
            }
        }
        let owner: Option<u64> = if shift_tab {
            match self.owner_of_layer(0) {
                Some(owner) => Some(owner),
                None => self.owner_of_layer(1),
            }
        } else {
            match self.keyboard_target(hwnd) {
                Some(layer) => self.owner_of_layer(layer),
                None => None,
            }
        };
        assert(owner == old(self)@.after_keyboard(key).keyboard_owner(hwnd, key));
        let owner: u64 = match owner {
            Some(owner) => owner,
            None => {
                return Vec::new();
            },
        };
        let mut out: Vec<Delivery> = Vec::new();
        if shift {
            if let Some(shell) = self.owner_of_layer(0) {
                if shell != owner {
                    out = self.emit_to(shell, event);
                }
            }
        }
        let mut last = self.emit_to(owner, event);
        out.append(&mut last);
        out
    }

    /// Removes every layer binding of `client`, together with the hit-test rects
    /// and the focus of those layers, and returns the layers.
    pub fn unbind_client_layers(&mut self, client: u64) -> (unbound: Vec<u32>)
        ensures
            unbound@.no_duplicates(),
            unbound@.to_set() == old(self)@.layers_of(client),
            final(self)@ == after_unbind(old(self)@, client),
    {
        let unbound = self.drop_owned(client);
        self.drop_rects(&unbound);
        self.drop_focus(&unbound);
        proof {
            let gone = old(self)@.layers_of(client);
            assert forall|layer: u32| unbound@.contains(layer) <==> gone.contains(layer) by {
                assert(unbound@.contains(layer) <==> unbound@.to_set().contains(layer));
            }
            assert((|rect: LayerRect| !unbound@.contains(rect.0)) =~= (|rect: LayerRect|
                !gone.contains(rect.0)));
            assert(self@.rects =~= after_unbind(old(self)@, client).rects);
            assert(self@.focus_layer =~= after_unbind(old(self)@, client).focus_layer);
        }
        unbound
    }

    /// Removes a client, together with its layer bindings.
    pub fn remove(&mut self, id: u64)
        ensures
            final(self)@ == (SinkState {
                sinks: others(old(self)@.sinks, id),
                layers: old(self)@.layers.remove_keys(old(self)@.layers_of(id)),
                ..old(self)@
            }),
    {
        let mut kept: Vec<u64> = Vec::new();
        let mut i: usize = 0;
        assert(others(self.sinks@.take(0), id) =~= Seq::empty()) by {
            reveal(Seq::filter);
        }
        while i < self.sinks.len()
            invariant
                i <= self.sinks@.len(),
                kept@ == others(self.sinks@.take(i as int), id),
                self@ == old(self)@,
            decreases self.sinks@.len() - i,
        {
            let sink: u64 = self.sinks[i];
            proof {
                let before = self.sinks@.take(i as int);
                assert(self.sinks@.take(i + 1) =~= before.push(sink));
                crate::tables::lemma_filter_push(before, sink, is_other(id));
            }
            if sink != id {
                kept.push(sink);
            }
            i += 1;
        }
        assert(self.sinks@.take(i as int) =~= self.sinks@);
        self.sinks = kept;
        let _unbound = self.drop_owned(id);
    }

    /// Removes the rects of the given layers from every window.
    fn drop_rects(&mut self, layers: &Vec<u32>)
        ensures
            final(self)@ == (SinkState {
                rects: old(self)@.rects.map_values(
                    |rects: Seq<LayerRect>| without(rects, layers@),
                ),
                ..old(self)@
            }),
    {
        let keys = keys_of(&self.rects);
        let mut i: usize = 0;
        while i < keys.len()
            invariant
                i <= keys@.len(),
                keys@.no_duplicates(),
                keys@.to_set() == old(self).rects@.dom(),
                self.rects@.dom() =~= old(self).rects@.dom(),
                forall|j: int|
                    0 <= j < i ==> (#[trigger] self.rects@[keys@[j]])@ == without(
                        old(self).rects@[keys@[j]]@,
                        layers@,
                    ),
                forall|j: int|
                    i <= j < keys@.len() ==> #[trigger] self.rects@[keys@[j]] == old(
                        self,
                    ).rects@[keys@[j]],
                self.next == old(self).next,
                self.sinks == old(self).sinks,
                self.layers == old(self).layers,
                self.focus_layer == old(self).focus_layer,
                self.shift_down == old(self).shift_down,
                self.left_down == old(self).left_down,
            decreases keys@.len() - i,
        {
            let hwnd: u32 = keys[i];
            assert(keys@.to_set().contains(hwnd)) by {
                assert(keys@.contains(hwnd));
            }
            if let Some(rects) = self.rects.get(&hwnd) {
                let kept = retain_rects(rects, layers);
                self.rects.insert(hwnd, kept);
            }
            i += 1;
        }
        proof {
            let want = old(self)@.rects.map_values(
                |rects: Seq<LayerRect>| without(rects, layers@),
            );
            assert forall|hwnd: u32| want.contains_key(hwnd) implies self@.rects[hwnd]
                == want[hwnd] by {
                assert(keys@.to_set().contains(hwnd));
                let j = keys@.index_of(hwnd);
                assert(self.rects@[keys@[j]]@ == without(old(self).rects@[keys@[j]]@, layers@));
            }
            assert(self@.rects =~= want);
        }
    }

    /// Removes the focus from the given layers in every window.
    fn drop_focus(&mut self, layers: &Vec<u32>)
        ensures
            final(self)@ == (SinkState {
                focus_layer: old(self)@.focus_layer.restrict(
                    Set::new(
                        |hwnd: u32|
                            old(self)@.focus_layer.contains_key(hwnd) && !layers@.contains(
                                old(self)@.focus_layer[hwnd],
                            ),
                    ),
                ),
                ..old(self)@
            }),
    {
        let keys = keys_of(&self.focus_layer);
        let mut i: usize = 0;
        while i < keys.len()
            invariant
                i <= keys@.len(),
                keys@.no_duplicates(),
                keys@.to_set() == old(self).focus_layer@.dom(),
                forall|hwnd: u32| #[trigger]
                    self.focus_layer@.contains_key(hwnd) ==> old(self).focus_layer@.contains_key(
                        hwnd,
                    ) && self.focus_layer@[hwnd] == old(self).focus_layer@[hwnd],
                forall|j: int|
                    0 <= j < i ==> (self.focus_layer@.contains_key(#[trigger] keys@[j])
                        <==> !layers@.contains(old(self).focus_layer@[keys@[j]])),
                forall|j: int|
                    i <= j < keys@.len() ==> self.focus_layer@.contains_key(#[trigger] keys@[j]),
                self.next == old(self).next,
                self.sinks == old(self).sinks,
                self.layers == old(self).layers,
                self.rects == old(self).rects,
                self.shift_down == old(self).shift_down,
                self.left_down == old(self).left_down,
            decreases keys@.len() - i,
        {
            let hwnd: u32 = keys[i];
            assert(self.focus_layer@.contains_key(keys@[i as int]));
            let stale = match self.focus_layer.get(&hwnd) {
                Some(layer) => listed(layers, *layer),
                None => false,
            };
            if stale {
                self.focus_layer.remove(&hwnd);
            }
            i += 1;
        }
        proof {
            let want = old(self)@.focus_layer.restrict(
                Set::new(
                    |hwnd: u32|
                        old(self)@.focus_layer.contains_key(hwnd) && !layers@.contains(
                            old(self)@.focus_layer[hwnd],
                        ),
                ),
            );
            assert forall|hwnd: u32|
                want.contains_key(hwnd) <==> self.focus_layer@.contains_key(hwnd) by {
                if old(self).focus_layer@.contains_key(hwnd) {
                    assert(keys@.to_set().contains(hwnd));
                    let j = keys@.index_of(hwnd);
                    assert(keys@[j] == hwnd);
                }
            }
            assert(self@.focus_layer =~= want);
        }
    }

    /// Removes the bindings of `client`.
    fn drop_owned(&mut self, client: u64) -> (unbound: Vec<u32>)
        ensures
            unbound@.no_duplicates(),
            unbound@.to_set() == old(self)@.layers_of(client),
            final(self)@ == (SinkState {
                layers: old(self)@.layers.remove_keys(old(self)@.layers_of(client)),
                ..old(self)@
            }),
    {
        let keys = keys_of(&self.layers);
        let mut unbound: Vec<u32> = Vec::new();
        let mut i: usize = 0;
        while i < keys.len()
            invariant
                i <= keys@.len(),
                keys@.no_duplicates(),
                keys@.to_set() == old(self).layers@.dom(),
                unbound@.no_duplicates(),
                forall|layer: u32|
                    unbound@.contains(layer) <==> keys@.take(i as int).contains(layer)
                        && old(self).layers@[layer] == client,
                self.layers@ =~= old(self).layers@.remove_keys(unbound@.to_set()),
                self.next == old(self).next,
                self.sinks == old(self).sinks,
                self.rects == old(self).rects,
                self.focus_layer == old(self).focus_layer,
                self.shift_down == old(self).shift_down,
                self.left_down == old(self).left_down,
            decreases keys@.len() - i,
        {
            let layer: u32 = keys[i];
            let ghost seen = keys@.take(i as int);
            let ghost before = unbound@;
            assert(keys@.take(i + 1) =~= seen.push(layer));
            assert(!seen.contains(layer)) by {
                if seen.contains(layer) {
                    let j = seen.index_of(layer);
                    assert(keys@[j] == keys@[i as int]);
                }
            }
            assert(keys@.to_set().contains(layer)) by {
                assert(keys@.contains(layer));
            }
            assert(self.layers@.contains_key(layer));
            let owned = match self.layers.get(&layer) {
                Some(owner) => *owner == client,
                None => false,
            };
            if owned {
                self.layers.remove(&layer);
                unbound.push(layer);
            }
            assert forall|other: u32|
                unbound@.contains(other) <==> keys@.take(i + 1).contains(other) && old(
                    self,
                ).layers@[other] == client by {
                crate::tables::lemma_push_contains(seen, layer, other);
                if owned {
                    crate::tables::lemma_push_contains(before, layer, other);
                }
            }
            if owned {
                assert(unbound@.to_set() =~= before.to_set().insert(layer)) by {
                    assert forall|other: u32|
                        unbound@.contains(other) <==> before.contains(other) || other == layer by {
                        crate::tables::lemma_push_contains(before, layer, other);
                    }
                }
            }
            i += 1;
        }
        assert(keys@.take(i as int) =~= keys@);
        assert(unbound@.to_set() =~= old(self)@.layers_of(client)) by {
            assert forall|layer: u32|
                unbound@.contains(layer) <==> old(self)@.layers_of(client).contains(layer) by {
                assert(keys@.contains(layer) <==> keys@.to_set().contains(layer));
            }
        }
        unbound
    }
}

/// Every client but one.
pub open spec fn is_other(id: u64) -> spec_fn(u64) -> bool {
    |sink: u64| sink != id
}

/// The clients but one.
pub open spec fn others(sinks: Seq<u64>, id: u64) -> Seq<u64> {
    sinks.filter(is_other(id))
}

/// `rects` without those of the given layers.
pub open spec fn without(rects: Seq<LayerRect>, layers: Seq<u32>) -> Seq<LayerRect> {
    rects.filter(|rect: LayerRect| !layers.contains(rect.0))
}

/// The rects that do not belong to one of the given layers.
fn retain_rects(rects: &Vec<LayerRect>, layers: &Vec<u32>) -> (kept: Vec<LayerRect>)
    ensures
        kept@ == without(rects@, layers@),
{
    let mut kept: Vec<LayerRect> = Vec::new();
    let mut i: usize = 0;
    assert(without(rects@.take(0), layers@) =~= Seq::empty()) by {
        reveal(Seq::filter);
    }
    while i < rects.len()
        invariant
            i <= rects@.len(),
            kept@ == without(rects@.take(i as int), layers@),
        decreases rects@.len() - i,
    {
        let rect: LayerRect = rects[i];
        proof {
            let before = rects@.take(i as int);
            assert(rects@.take(i + 1) =~= before.push(rect));
            crate::tables::lemma_filter_push(
                before,
                rect,
                |rect: LayerRect| !layers@.contains(rect.0),
            );
        }
        if !listed(layers, rect.0) {
            kept.push(rect);
        }
        i += 1;
    }
    assert(rects@.take(i as int) =~= rects@);
    kept
}

/// The state after the layers of a client were unbound.
pub open spec fn after_unbind(state: SinkState, client: u64) -> SinkState {
    let gone = state.layers_of(client);
    SinkState {
        layers: state.layers.remove_keys(gone),
        rects: state.rects.map_values(
            |rects: Seq<LayerRect>| rects.filter(|rect: LayerRect| !gone.contains(rect.0)),
        ),
        focus_layer: state.focus_layer.restrict(
            Set::new(
                |hwnd: u32|
                    state.focus_layer.contains_key(hwnd) && !gone.contains(
                        state.focus_layer[hwnd],
                    ),
            ),
        ),
        ..state
    }
}

/// A hit is the highest layer under the point: everything above it is without
/// an owner or elsewhere. Without a hit no owned layer is under the point.
pub proof fn law_hit_is_topmost(
    rects: Seq<LayerRect>,
    layers: Map<u32, u64>,
    point: InputPosition,
)
    ensures
        match topmost_hit(rects, layers, point) {
            Some(layer) => exists|i: int|
                0 <= i < rects.len() && (#[trigger] rects[i]).0 == layer && hit(
                    rects[i],
                    layers,
                    point,
                ) && forall|j: int| i < j < rects.len() ==> !hit(#[trigger] rects[j], layers, point),
            None => forall|i: int|
                0 <= i < rects.len() ==> !hit(#[trigger] rects[i], layers, point),
        },
    decreases rects.len(),
{
    if rects.len() > 0 {
        let last = rects.len() - 1;
        if hit(rects.last(), layers, point) {
            assert(rects[last].0 == rects.last().0);
        } else {
            let rest = rects.drop_last();
            law_hit_is_topmost(rest, layers, point);
            if topmost_hit(rest, layers, point) is Some {
                let layer = topmost_hit(rest, layers, point)->0;
                let i = choose|i: int|
                    0 <= i < rest.len() && (#[trigger] rest[i]).0 == layer && hit(
                        rest[i],
                        layers,
                        point,
                    ) && forall|j: int|
                        i < j < rest.len() ==> !hit(#[trigger] rest[j], layers, point);
                assert(rects[i] == rest[i]);
                assert forall|j: int| i < j < rects.len() implies !hit(
                    #[trigger] rects[j],
                    layers,
                    point,
                ) by {
                    if j < last {
                        assert(rects[j] == rest[j]);
                    }
                }
            } else {
                assert forall|j: int| 0 <= j < rects.len() implies !hit(
                    #[trigger] rects[j],
                    layers,
                    point,
                ) by {
                    if j < last {
                        assert(rects[j] == rest[j]);
                    }
                }
            }
        }
    }
}

/// Input reaches nobody but connected owners of layers, at most one of them, or
/// two where it is the Shift key.
pub proof fn law_input_is_for_owners(state: SinkState, event: OverlayEvent)
    requires
        event.what() is Input,
    ensures
        forall|i: int|
            0 <= i < state.deliveries(event).len() ==> {
                let client = (#[trigger] state.deliveries(event)[i]).client;
                state.sinks.contains(client) && state.layers.contains_value(client)
            },
        state.deliveries(event).len() <= 2,
        state.deliveries(event).len() == 2 ==> (event.what()->Input_0 matches InputEvent::Keyboard(
            key,
        ) && is_shift(key)),
{
    match event.what()->Input_0 {
        InputEvent::Cursor(cursor) => {},
        InputEvent::Keyboard(key) => {
            let after = state.after_keyboard(key);
            if after.keyboard_owner(event.window(), key) is Some {
                let owner = after.keyboard_owner(event.window(), key)->0;
                assert(state.layers.contains_value(owner)) by {
                    if presses_tab(key) && after.shift_down {
                        assert(state.layers.contains_key(0) || state.layers.contains_key(1));
                    } else {
                        assert(state.layers.contains_key(after.keyboard_layer(event.window())->0));
                    }
                }
                if state.layers.contains_key(0) {
                    assert(state.layers.contains_value(state.layers[0]));
                }
            }
        },
    }
}

/// While no layer has an owner, input is dropped.
pub proof fn law_unowned_input_is_dropped(state: SinkState, event: OverlayEvent)
    requires
        event.what() is Input,
        state.layers.dom().is_empty(),
    ensures
        state.deliveries(event).len() == 0,
{
    assert(forall|layer: u32| !state.layers.contains_key(layer));
}

/// A press of the left button captures the cursor: from then on every cursor
/// event of the window that is not another press is for the layer that was hit,
/// wherever the cursor is. That holds through the release, which ends it.
pub proof fn law_left_button_captures(
    state: SinkState,
    hwnd: u32,
    press: CursorInput,
    next: CursorInput,
)
    requires
        presses_left(press.event),
        state.hit_layer(hwnd, press.window) is Some,
        !presses_left(next.event),
    ensures
        state.after_cursor(hwnd, press).cursor_layer(hwnd, next) == state.hit_layer(
            hwnd,
            press.window,
        ),
        state.after_cursor(hwnd, press).after_cursor(hwnd, next).left_down == !releases_left(
            next.event,
        ),
        state.after_cursor(hwnd, press).after_cursor(hwnd, next).focus_layer
            == state.after_cursor(hwnd, press).focus_layer,
{
    let held = state.after_cursor(hwnd, press);
    assert(held.after_cursor(hwnd, next).focus_layer =~= held.focus_layer);
}

/// With Shift held, Tab goes to the owner of layer 0, or where that layer is
/// free to the owner of layer 1, whatever has the focus.
pub proof fn law_shift_tab_goes_to_the_shell(
    state: SinkState,
    shift: OverlayEvent,
    tab: OverlayEvent,
    shift_key: KeyboardInput,
    tab_key: KeyboardInput,
)
    requires
        shift.what() == WindowEvent::Input(InputEvent::Keyboard(shift_key)),
        shift_key matches KeyboardInput::Key { key, state: KeyInputState::Pressed } && key.code
            == VK_SHIFT,
        tab.what() == WindowEvent::Input(InputEvent::Keyboard(tab_key)),
        presses_tab(tab_key),
    ensures
        state.after(shift).deliveries(tab) == (if state.layers.contains_key(0) {
            state.deliver(state.layers[0], tab)
        } else if state.layers.contains_key(1) {
            state.deliver(state.layers[1], tab)
        } else {
            seq![]
        }),
{
    let held = state.after(shift);
    assert(held.shift_down);
    assert(held.after_keyboard(tab_key) == held);
    assert(!is_shift(tab_key));
}

/// The first binder of a layer keeps it: binding it again changes nothing.
pub proof fn law_first_binder_wins(state: SinkState, layer: u32, first: u64, second: u64)
    ensures
        state.bind(first, layer).bind(second, layer) == state.bind(first, layer),
        !state.layers.contains_key(layer) ==> state.bind(first, layer).owner(layer) == Some(first),
{
}

/// A client that is not connected gets nothing, and no event connects it.
pub proof fn law_removed_client_is_silent(state: SinkState, id: u64, event: OverlayEvent)
    requires
        !state.sinks.contains(id),
    ensures
        forall|i: int|
            0 <= i < state.deliveries(event).len() ==> (#[trigger] state.deliveries(
                event,
            )[i]).client != id,
        !state.after(event).sinks.contains(id),
{
    assert forall|i: int| 0 <= i < state.deliveries(event).len() implies (
    #[trigger] state.deliveries(event)[i]).client != id by {
        if event.what() is Input {
            law_input_is_for_owners(state, event);
        } else {
            assert(state.sinks.contains(state.sinks[i]));
        }
    }
}

/// Removing a client disconnects it and no other, and leaves it no layer.
pub proof fn law_removal_is_exact(state: SinkState, id: u64, other: u64, layer: u32)
    ensures
        others(state.sinks, id).contains(other) <==> state.sinks.contains(other) && other != id,
        state.layers.remove_keys(state.layers_of(id)).contains_key(layer)
            <==> state.layers.contains_key(layer) && state.layers[layer] != id,
{
    broadcast use vstd::seq_lib::group_filter_ensures;

    let kept = others(state.sinks, id);
    if kept.contains(other) {
        assert(is_other(id)(kept[kept.index_of(other)]));
        state.sinks.lemma_filter_contains_rev(is_other(id), other);
    }
    if state.sinks.contains(other) && other != id {
        let k = state.sinks.index_of(other);
        assert(is_other(id)(state.sinks[k]));
        assert(kept.contains(state.sinks[k]));
    }
}

/// Once the layers of a client are unbound, no layer, rect or focus of any
/// window is left of them.
pub proof fn law_unbound_layers_are_gone(state: SinkState, client: u64, hwnd: u32, layer: u32)
    requires
        state.layers_of(client).contains(layer),
    ensures
        !after_unbind(state, client).layers.contains_key(layer),
        !after_unbind(state, client).layers.contains_value(client),
        after_unbind(state, client).rects.contains_key(hwnd) ==> forall|i: int|
            0 <= i < after_unbind(state, client).rects[hwnd].len() ==> (
            #[trigger] after_unbind(state, client).rects[hwnd][i]).0 != layer,
        after_unbind(state, client).focus_layer.contains_key(hwnd) ==> after_unbind(
            state,
            client,
        ).focus_layer[hwnd] != layer,
{
    let gone = state.layers_of(client);
    if state.rects.contains_key(hwnd) {
        broadcast use vstd::seq_lib::group_filter_ensures;

        let kept = state.rects[hwnd].filter(|rect: LayerRect| !gone.contains(rect.0));
        assert forall|i: int| 0 <= i < kept.len() implies (#[trigger] kept[i]).0 != layer by {
            assert(kept.contains(kept[i]));
        }
    }
}

/// The highest of the rects that holds a point is the one that is hit, when its
/// layer has an owner and no owned layer above it holds the point. A rect holds
/// the points from its corner on, up to and without its width and height.
pub proof fn law_point_hits_the_rect_that_holds_it(
    sink: OverlayEventSink,
    hwnd: u32,
    point: InputPosition,
    found: Option<u32>,
    k: int,
)
    requires
        call_ensures(OverlayEventSink::hit_test, (&sink, hwnd, point), found),
        sink@.rects.contains_key(hwnd),
        0 <= k < sink@.rects[hwnd].len(),
        point.x < i32::MAX,
        point.y < i32::MAX,
        sink@.layers.contains_key(sink@.rects[hwnd][k].0),
        sink@.rects[hwnd][k].3 <= i32::MAX,
        sink@.rects[hwnd][k].4 <= i32::MAX,
        0 <= point.x - sink@.rects[hwnd][k].1 < sink@.rects[hwnd][k].3,
        0 <= point.y - sink@.rects[hwnd][k].2 < sink@.rects[hwnd][k].4,
        forall|j: int|
            k < j < sink@.rects[hwnd].len() ==> {
                let (layer, x, y, width, height) = #[trigger] sink@.rects[hwnd][j];
                !sink@.layers.contains_key(layer) || point.x < x || point.y < y || point.x - x
                    >= width || point.y - y >= height
            },
    ensures
        found == Some(sink@.rects[hwnd][k].0),
{
    let rects = sink@.rects[hwnd];
    law_hit_is_topmost(rects, sink@.layers, point);
    assert(hit(rects[k], sink@.layers, point));
}

/// Nothing is hit where no rect of an owned layer holds the point, where the window
/// published none, nor by a rect that is empty or wider or higher than a signed
/// number can say. The greatest coordinate is in no rect.
pub proof fn law_point_outside_hits_nothing(
    sink: OverlayEventSink,
    hwnd: u32,
    point: InputPosition,
    found: Option<u32>,
)
    requires
        call_ensures(OverlayEventSink::hit_test, (&sink, hwnd, point), found),
        sink@.rects.contains_key(hwnd) ==> forall|j: int|
            0 <= j < sink@.rects[hwnd].len() ==> {
                let (layer, x, y, width, height) = #[trigger] sink@.rects[hwnd][j];
                ||| !sink@.layers.contains_key(layer)
                ||| point.x < x
                ||| point.y < y
                ||| point.x - x >= width
                ||| point.y - y >= height
                ||| width > i32::MAX
                ||| height > i32::MAX
                ||| point.x == i32::MAX
                ||| point.y == i32::MAX
            },
    ensures
        found is None,
{
    if sink@.rects.contains_key(hwnd) {
        law_hit_is_topmost(sink@.rects[hwnd], sink@.layers, point);
    }
}

/// The first rect of a layer tells where the layer starts.
proof fn lemma_origin(rects: Seq<LayerRect>, k: int)
    requires
        0 <= k < rects.len(),
        forall|j: int| 0 <= j < k ==> (#[trigger] rects[j]).0 != rects[k].0,
    ensures
        layer_origin(rects, rects[k].0) == (rects[k].1, rects[k].2),
    decreases k,
{
    if k > 0 {
        let rest = rects.drop_first();
        assert(rest[k - 1] == rects[k]);
        assert forall|j: int| 0 <= j < k - 1 implies (#[trigger] rest[j]).0 != rest[k - 1].0 by {
            assert(rest[j] == rects[j + 1]);
        }
        assert(rects[0].0 != rects[k].0);
        lemma_origin(rest, k - 1);
    }
}

/// A cursor event goes to the owner of the layer that it hits, and to nobody else.
/// The owner sees what the cursor did, where it is in the window, and where it is in
/// the layer: as far right and down of the layer's corner as it is in the window, and
/// so within the width and height of the layer. The layer has the focus from then on.
pub proof fn law_cursor_is_seen_from_the_corner_of_its_layer(
    sink: &mut OverlayEventSink,
    hwnd: u32,
    cursor: CursorInput,
    out: Vec<Delivery>,
    k: int,
)
    requires
        call_ensures(
            OverlayEventSink::emit,
            (
                sink,
                OverlayEvent::Window {
                    id: hwnd,
                    event: WindowEvent::Input(InputEvent::Cursor(cursor)),
                },
            ),
            out,
        ),
        sink@.rects.contains_key(hwnd),
        0 <= k < sink@.rects[hwnd].len(),
        cursor.window.x < i32::MAX,
        cursor.window.y < i32::MAX,
        sink@.layers.contains_key(sink@.rects[hwnd][k].0),
        sink@.sinks.contains(sink@.layers[sink@.rects[hwnd][k].0]),
        sink@.rects[hwnd][k].3 <= i32::MAX,
        sink@.rects[hwnd][k].4 <= i32::MAX,
        0 <= cursor.window.x - sink@.rects[hwnd][k].1 < sink@.rects[hwnd][k].3,
        0 <= cursor.window.y - sink@.rects[hwnd][k].2 < sink@.rects[hwnd][k].4,
        forall|j: int|
            0 <= j < k ==> (#[trigger] sink@.rects[hwnd][j]).0 != sink@.rects[hwnd][k].0,
        forall|j: int|
            k < j < sink@.rects[hwnd].len() ==> {
                let (layer, x, y, width, height) = #[trigger] sink@.rects[hwnd][j];
                !sink@.layers.contains_key(layer) || cursor.window.x < x || cursor.window.y < y
                    || cursor.window.x - x >= width || cursor.window.y - y >= height
            },
        !sink@.left_down || !sink@.focus_layer.contains_key(hwnd) || (
        cursor.event matches CursorEvent::Action {
            state: CursorInputState::Pressed { .. },
            action: CursorAction::Left,
        }),
    ensures
        out@.len() == 1,
        out@[0].client == old(sink)@.layers[old(sink)@.rects[hwnd][k].0],
        out@[0].event matches OverlayEvent::Window { id, event: what } && id == hwnd && (
        what matches WindowEvent::Input(InputEvent::Cursor(seen)) && {
            &&& seen.event == cursor.event
            &&& seen.window == cursor.window
            &&& seen.client.x == cursor.window.x - old(sink)@.rects[hwnd][k].1
            &&& seen.client.y == cursor.window.y - old(sink)@.rects[hwnd][k].2
            &&& 0 <= seen.client.x < old(sink)@.rects[hwnd][k].3
            &&& 0 <= seen.client.y < old(sink)@.rects[hwnd][k].4
        }),
        final(sink)@.focus_layer.contains_key(hwnd),
        final(sink)@.focus_layer[hwnd] == old(sink)@.rects[hwnd][k].0,
        final(sink)@.layers == old(sink)@.layers,
        final(sink)@.rects == old(sink)@.rects,
        final(sink)@.sinks == old(sink)@.sinks,
        final(sink)@.shift_down == old(sink)@.shift_down,
{
    let rects = sink@.rects[hwnd];
    law_hit_is_topmost(rects, sink@.layers, cursor.window);
    assert(hit(rects[k], sink@.layers, cursor.window));
    lemma_origin(rects, k);
}

/// While the left button is held the cursor belongs to the layer that has the focus,
/// wherever it is: the owner sees it from the corner of that layer, in two's
/// complement arithmetic.
pub proof fn law_held_cursor_stays_with_its_layer(
    sink: &mut OverlayEventSink,
    hwnd: u32,
    cursor: CursorInput,
    out: Vec<Delivery>,
    k: int,
)
    requires
        call_ensures(
            OverlayEventSink::emit,
            (
                sink,
                OverlayEvent::Window {
                    id: hwnd,
                    event: WindowEvent::Input(InputEvent::Cursor(cursor)),
                },
            ),
            out,
        ),
        sink@.left_down,
        sink@.focus_layer.contains_key(hwnd),
        !(cursor.event matches CursorEvent::Action {
            state: CursorInputState::Pressed { .. },
            action: CursorAction::Left,
        }),
    ensures
        final(sink)@.focus_layer == old(sink)@.focus_layer,
        ({
            let layer = old(sink)@.focus_layer[hwnd];
            let owned = old(sink)@.layers.contains_key(layer) && old(sink)@.sinks.contains(
                old(sink)@.layers[layer],
            );
            &&& !owned ==> out@.len() == 0
            &&& owned ==> out@.len() == 1 && out@[0].client == old(sink)@.layers[layer]
            &&& owned && old(sink)@.rects.contains_key(hwnd) && 0 <= k < old(
                sink,
            )@.rects[hwnd].len() && old(sink)@.rects[hwnd][k].0 == layer && (forall|j: int|
                0 <= j < k ==> (#[trigger] old(sink)@.rects[hwnd][j]).0 != layer) ==> (
            out@[0].event matches OverlayEvent::Window {
                id,
                event: WindowEvent::Input(InputEvent::Cursor(seen)),
            } && {
                let dx = cursor.window.x - old(sink)@.rects[hwnd][k].1;
                let dy = cursor.window.y - old(sink)@.rects[hwnd][k].2;
                &&& id == hwnd
                &&& seen.event == cursor.event
                &&& seen.window == cursor.window
                &&& i32::MIN <= dx <= i32::MAX ==> seen.client.x == dx
                &&& i32::MIN <= dy <= i32::MAX ==> seen.client.y == dy
                &&& dx > i32::MAX ==> seen.client.x == dx - 0x1_0000_0000
                &&& dx < i32::MIN ==> seen.client.x == dx + 0x1_0000_0000
                &&& dy > i32::MAX ==> seen.client.y == dy - 0x1_0000_0000
                &&& dy < i32::MIN ==> seen.client.y == dy + 0x1_0000_0000
            })
        }),
{
    let layer = sink@.focus_layer[hwnd];
    assert(final(sink)@.focus_layer =~= old(sink)@.focus_layer);
    if sink@.rects.contains_key(hwnd) && 0 <= k < sink@.rects[hwnd].len()
        && sink@.rects[hwnd][k].0 == layer && (forall|j: int|
        0 <= j < k ==> (#[trigger] sink@.rects[hwnd][j]).0 != layer) {
        lemma_origin(sink@.rects[hwnd], k);
    }
}

/// The left button counts as held from its press to its release, whatever else the
/// cursor does in between and wherever it does it; no other button does.
pub proof fn law_left_button_is_held_until_released(
    sink: &mut OverlayEventSink,
    hwnd: u32,
    cursor: CursorInput,
    out: Vec<Delivery>,
)
    requires
        call_ensures(
            OverlayEventSink::emit,
            (
                sink,
                OverlayEvent::Window {
                    id: hwnd,
                    event: WindowEvent::Input(InputEvent::Cursor(cursor)),
                },
            ),
            out,
        ),
    ensures
        match cursor.event {
            CursorEvent::Action {
                state: CursorInputState::Pressed { .. },
                action: CursorAction::Left,
            } => final(sink)@.left_down,
            CursorEvent::Action {
                state: CursorInputState::Released,
                action: CursorAction::Left,
            } => !final(sink)@.left_down,
            _ => final(sink)@.left_down == old(sink)@.left_down,
        },
        final(sink)@.layers == old(sink)@.layers,
        final(sink)@.rects == old(sink)@.rects,
        final(sink)@.sinks == old(sink)@.sinks,
        final(sink)@.next == old(sink)@.next,
        final(sink)@.shift_down == old(sink)@.shift_down,
        out@.len() <= 1,
        forall|other: u32|
            other != hwnd ==> #[trigger] final(sink)@.focus_layer.contains_key(other) == old(
                sink,
            )@.focus_layer.contains_key(other) && (old(sink)@.focus_layer.contains_key(other)
                ==> final(sink)@.focus_layer[other] == old(sink)@.focus_layer[other]),
{
}

/// A cursor that hits no owned layer, and is not held, is nobody's: the event is
/// dropped and the focus stays.
pub proof fn law_cursor_outside_is_dropped(
    sink: &mut OverlayEventSink,
    hwnd: u32,
    cursor: CursorInput,
    out: Vec<Delivery>,
    found: Option<u32>,
)
    requires
        call_ensures(
            OverlayEventSink::emit,
            (
                sink,
                OverlayEvent::Window {
                    id: hwnd,
                    event: WindowEvent::Input(InputEvent::Cursor(cursor)),
                },
            ),
            out,
        ),
        call_ensures(OverlayEventSink::hit_test, (&*sink, hwnd, cursor.window), found),
        found is None,
        !sink@.left_down || !sink@.focus_layer.contains_key(hwnd),
    ensures
        out@.len() == 0,
        final(sink)@.focus_layer == old(sink)@.focus_layer,
{
}

/// Every event that is no input reaches every connected client once, in the order
/// in which they came, as it is; the sink stays as it was.
pub proof fn law_window_events_reach_everybody(
    sink: &mut OverlayEventSink,
    event: OverlayEvent,
    out: Vec<Delivery>,
    i: int,
)
    requires
        call_ensures(OverlayEventSink::emit, (sink, event), out),
        !(event matches OverlayEvent::Window { event: WindowEvent::Input(_), .. }),
        0 <= i < sink@.sinks.len(),
    ensures
        out@.len() == old(sink)@.sinks.len(),
        out@[i].client == old(sink)@.sinks[i],
        out@[i].event == event,
        final(sink)@ == old(sink)@,
{
}

/// A key that went down or up is known by its code: 0x10 is Shift, and is held from
/// its press to its release; no other key changes anything.
pub proof fn law_shift_is_held_until_released(
    sink: &mut OverlayEventSink,
    hwnd: u32,
    input: KeyboardInput,
    out: Vec<Delivery>,
)
    requires
        call_ensures(
            OverlayEventSink::emit,
            (
                sink,
                OverlayEvent::Window {
                    id: hwnd,
                    event: WindowEvent::Input(InputEvent::Keyboard(input)),
                },
            ),
            out,
        ),
    ensures
        final(sink)@.shift_down == (match input {
            KeyboardInput::Key { key, state } if key.code == 0x10 => state == KeyInputState::Pressed,
            _ => old(sink)@.shift_down,
        }),
        final(sink)@.left_down == old(sink)@.left_down,
        final(sink)@.focus_layer == old(sink)@.focus_layer,
        final(sink)@.layers == old(sink)@.layers,
        final(sink)@.rects == old(sink)@.rects,
        final(sink)@.sinks == old(sink)@.sinks,
{
}

/// Keys follow the focus: while a layer of the window has it, a keyboard event goes
/// to the owner of that layer, as it is. Tab with Shift held goes to the owner of
/// layer 0 instead, or to that of layer 1 where nobody owns layer 0. Shift itself
/// goes to the owner of layer 0 as well, before it goes to the owner of the focus.
pub proof fn law_keys_follow_the_focus(
    sink: &mut OverlayEventSink,
    hwnd: u32,
    input: KeyboardInput,
    out: Vec<Delivery>,
)
    requires
        call_ensures(
            OverlayEventSink::emit,
            (
                sink,
                OverlayEvent::Window {
                    id: hwnd,
                    event: WindowEvent::Input(InputEvent::Keyboard(input)),
                },
            ),
            out,
        ),
        sink@.focus_layer.contains_key(hwnd),
        forall|layer: u32| #[trigger]
            sink@.layers.contains_key(layer) ==> sink@.sinks.contains(sink@.layers[layer]),
    ensures
        forall|i: int|
            0 <= i < out@.len() ==> (#[trigger] out@[i]).event == (OverlayEvent::Window {
                id: hwnd,
                event: WindowEvent::Input(InputEvent::Keyboard(input)),
            }),
        ({
            let layers = old(sink)@.layers;
            let focus = old(sink)@.focus_layer[hwnd];
            let is_shift = input matches KeyboardInput::Key { key, .. } && key.code == 0x10;
            let is_switch = old(sink)@.shift_down && (input matches KeyboardInput::Key {
                key,
                state: KeyInputState::Pressed,
            } && key.code == 0x09);
            &&& is_switch && layers.contains_key(0) ==> out@.len() == 1 && out@[0].client
                == layers[0]
            &&& is_switch && !layers.contains_key(0) && layers.contains_key(1) ==> out@.len() == 1
                && out@[0].client == layers[1]
            &&& is_switch && !layers.contains_key(0) && !layers.contains_key(1) ==> out@.len() == 0
            &&& !is_switch && !layers.contains_key(focus) ==> out@.len() == 0
            &&& !is_switch && layers.contains_key(focus) && !is_shift ==> out@.len() == 1
                && out@[0].client == layers[focus]
            &&& is_shift && layers.contains_key(focus) && (!layers.contains_key(0) || layers[0]
                == layers[focus]) ==> out@.len() == 1 && out@[0].client == layers[focus]
            &&& is_shift && layers.contains_key(focus) && layers.contains_key(0) && layers[0]
                != layers[focus] ==> out@.len() == 2 && out@[0].client == layers[0]
                && out@[1].client == layers[focus]
        }),
{
    let focus = sink@.focus_layer[hwnd];
    assert(sink@.layers.contains_key(focus) ==> sink@.sinks.contains(sink@.layers[focus]));
    assert(sink@.layers.contains_key(0) ==> sink@.sinks.contains(sink@.layers[0]));
    assert(sink@.layers.contains_key(1) ==> sink@.sinks.contains(sink@.layers[1]));
}

/// The last rect with an owner is the topmost one.
proof fn lemma_topmost_bound(rects: Seq<LayerRect>, layers: Map<u32, u64>, k: int)
    requires
        -1 <= k < rects.len(),
        k >= 0 ==> layers.contains_key(rects[k].0),
        forall|j: int| k < j < rects.len() ==> !layers.contains_key((#[trigger] rects[j]).0),
    ensures
        topmost_bound(rects, layers) == (if k >= 0 {
            Some(rects[k].0)
        } else {
            None
        }),
    decreases rects.len(),
{
    if rects.len() > 0 && k < rects.len() - 1 {
        let rest = rects.drop_last();
        assert(!layers.contains_key(rects[rects.len() - 1].0));
        assert forall|j: int| k < j < rest.len() implies !layers.contains_key(
            (#[trigger] rest[j]).0,
        ) by {
            assert(rest[j] == rects[j]);
        }
        if k >= 0 {
            assert(rest[k] == rects[k]);
        }
        lemma_topmost_bound(rest, layers, k);
    }
}

/// Before any layer of a window has the focus, keys go to the owner of its topmost
/// owned layer, else to that of layer 1, else to that of layer 0.
pub proof fn law_keys_without_focus_go_to_the_topmost_owner(
    sink: &mut OverlayEventSink,
    hwnd: u32,
    input: KeyboardInput,
    out: Vec<Delivery>,
    k: int,
)
    requires
        call_ensures(
            OverlayEventSink::emit,
            (
                sink,
                OverlayEvent::Window {
                    id: hwnd,
                    event: WindowEvent::Input(InputEvent::Keyboard(input)),
                },
            ),
            out,
        ),
        !sink@.focus_layer.contains_key(hwnd),
        input matches KeyboardInput::Key { key, .. } ==> key.code != 0x10 && key.code != 0x09,
        forall|layer: u32| #[trigger]
            sink@.layers.contains_key(layer) ==> sink@.sinks.contains(sink@.layers[layer]),
        sink@.rects.contains_key(hwnd) ==> {
            &&& -1 <= k < sink@.rects[hwnd].len()
            &&& k >= 0 ==> sink@.layers.contains_key(sink@.rects[hwnd][k].0)
            &&& forall|j: int|
                k < j < sink@.rects[hwnd].len() ==> !sink@.layers.contains_key(
                    (#[trigger] sink@.rects[hwnd][j]).0,
                )
        },
    ensures
        ({
            let layers = old(sink)@.layers;
            let shown = old(sink)@.rects.contains_key(hwnd) && k >= 0;
            &&& shown ==> out@.len() == 1 && out@[0].client == layers[old(sink)@.rects[hwnd][k].0]
            &&& !shown && layers.contains_key(1) ==> out@.len() == 1 && out@[0].client == layers[1]
            &&& !shown && !layers.contains_key(1) && layers.contains_key(0) ==> out@.len() == 1
                && out@[0].client == layers[0]
            &&& !shown && !layers.contains_key(1) && !layers.contains_key(0) ==> out@.len() == 0
        }),
{
    if sink@.rects.contains_key(hwnd) {
        lemma_topmost_bound(sink@.rects[hwnd], sink@.layers, k);
        if k >= 0 {
            assert(sink@.layers.contains_key(sink@.rects[hwnd][k].0));
        }
    }
    assert(sink@.layers.contains_key(0) ==> sink@.sinks.contains(sink@.layers[0]));
    assert(sink@.layers.contains_key(1) ==> sink@.sinks.contains(sink@.layers[1]));
}

/// What is published of a window is what is hit later, and replaces what was
/// published of it before; other windows keep theirs, and nothing else changes.
pub proof fn law_published_rects_are_kept(
    sink: &mut OverlayEventSink,
    hwnd: u32,
    rects: Vec<LayerRect>,
    other: u32,
)
    requires
        call_ensures(OverlayEventSink::set_layer_rects, (sink, hwnd, rects), ()),
        other != hwnd,
    ensures
        final(sink)@.rects.contains_key(hwnd) && final(sink)@.rects[hwnd] == rects@,
        final(sink)@.rects.contains_key(other) == old(sink)@.rects.contains_key(other),
        old(sink)@.rects.contains_key(other) ==> final(sink)@.rects[other] == old(
            sink,
        )@.rects[other],
        final(sink)@.layers == old(sink)@.layers,
        final(sink)@.sinks == old(sink)@.sinks,
        final(sink)@.focus_layer == old(sink)@.focus_layer,
        final(sink)@.left_down == old(sink)@.left_down,
        final(sink)@.shift_down == old(sink)@.shift_down,
        final(sink)@.next == old(sink)@.next,
{
}

/// Clients come with different numbers, each later one with a greater one, as long
/// as there are numbers left; a new client is connected, and owns nothing yet.
pub proof fn law_clients_are_told_apart(
    sink: &mut OverlayEventSink,
    next: &mut OverlayEventSink,
    first: u64,
    second: u64,
)
    requires
        call_ensures(OverlayEventSink::add, (sink,), first),
        *next == *final(sink),
        call_ensures(OverlayEventSink::add, (next,), second),
        sink@.next < u64::MAX,
    ensures
        second == first + 1,
        final(next)@.sinks == old(sink)@.sinks.push(first).push(second),
        final(next)@.layers == old(sink)@.layers,
        final(next)@.rects == old(sink)@.rects,
        final(next)@.focus_layer == old(sink)@.focus_layer,
{
}

/// A client that binds a free layer owns it; a layer that has an owner keeps it, and
/// other layers are left alone.
pub proof fn law_free_layers_can_be_bound(
    sink: &mut OverlayEventSink,
    client: u64,
    layer: u32,
    other: u32,
    owner: Option<u64>,
    before: Option<u64>,
    beside: Option<u64>,
    beside_before: Option<u64>,
)
    requires
        call_ensures(OverlayEventSink::owner_of_layer, (&*sink, layer), before),
        call_ensures(OverlayEventSink::owner_of_layer, (&*sink, other), beside_before),
        call_ensures(OverlayEventSink::bind_layer, (sink, client, layer), ()),
        call_ensures(OverlayEventSink::owner_of_layer, (&*final(sink), layer), owner),
        call_ensures(OverlayEventSink::owner_of_layer, (&*final(sink), other), beside),
        other != layer,
    ensures
        before is None ==> owner == Some(client),
        before is Some ==> owner == before,
        beside == beside_before,
        final(sink)@.sinks == old(sink)@.sinks,
        final(sink)@.rects == old(sink)@.rects,
        final(sink)@.focus_layer == old(sink)@.focus_layer,
        final(sink)@.left_down == old(sink)@.left_down,
        final(sink)@.shift_down == old(sink)@.shift_down,
{
}

/// An empty registry has no client; one with a client is connected.
pub proof fn law_connected_while_somebody_is(sink: OverlayEventSink, empty: OverlayEventSink, any: bool, none: bool)
    requires
        call_ensures(OverlayEventSink::connected, (&sink,), any),
        call_ensures(OverlayEventSink::new, (), empty),
        call_ensures(OverlayEventSink::connected, (&empty,), none),
    ensures
        any == (exists|client: u64| sink@.sinks.contains(client)),
        !none,
        forall|layer: u32| !(#[trigger] empty@.layers.contains_key(layer)),
        forall|hwnd: u32| !(#[trigger] empty@.rects.contains_key(hwnd)),
        forall|hwnd: u32| !(#[trigger] empty@.focus_layer.contains_key(hwnd)),
        !empty@.shift_down,
        !empty@.left_down,
{
    if sink@.sinks.len() > 0 {
        assert(sink@.sinks.contains(sink@.sinks[0]));
    }
}

/// A client that left gets nothing any more, and owns nothing; all others stay
/// connected, and owners.
pub proof fn law_leaving_client_takes_only_its_own(
    sink: &mut OverlayEventSink,
    id: u64,
    event: OverlayEvent,
    out: Vec<Delivery>,
    told: Vec<Delivery>,
    other: u64,
    layer: u32,
)
    requires
        call_ensures(OverlayEventSink::remove, (sink, id), ()),
        call_ensures(OverlayEventSink::emit_to, (&*final(sink), id, event), out),
        call_ensures(OverlayEventSink::emit_to, (&*final(sink), other, event), told),
        other != id,
    ensures
        out@.len() == 0,
        old(sink)@.sinks.contains(other) ==> told@.len() == 1 && told@[0].client == other
            && told@[0].event == event,
        !old(sink)@.sinks.contains(other) ==> told@.len() == 0,
        final(sink)@.layers.contains_key(layer) <==> old(sink)@.layers.contains_key(layer) && old(
            sink,
        )@.layers[layer] != id,
        final(sink)@.layers.contains_key(layer) ==> final(sink)@.layers[layer] == old(
            sink,
        )@.layers[layer],
        final(sink)@.rects == old(sink)@.rects,
        final(sink)@.focus_layer == old(sink)@.focus_layer,
        final(sink)@.next == old(sink)@.next,
{
    law_removal_is_exact(old(sink)@, id, other, layer);
    law_removal_is_exact(old(sink)@, id, id, layer);
}

/// Unbinding a client tells each of its layers once, and takes their owner, rects and
/// focus away in every window; the layers of others keep all of it.
pub proof fn law_unbinding_takes_only_the_clients_layers(
    sink: &mut OverlayEventSink,
    client: u64,
    unbound: Vec<u32>,
    layer: u32,
    hwnd: u32,
    rect: LayerRect,
)
    requires
        call_ensures(OverlayEventSink::unbind_client_layers, (sink, client), unbound),
    ensures
        ({
            let own = old(sink)@.layers.contains_key(layer) && old(sink)@.layers[layer] == client;
            let holds_rect = old(sink)@.rects.contains_key(hwnd) && old(
                sink,
            )@.rects[hwnd].contains(rect);
            &&& unbound@.contains(layer) == own
            &&& own ==> !final(sink)@.layers.contains_key(layer)
            &&& !own && old(sink)@.layers.contains_key(layer) ==> final(sink)@.layers.contains_key(
                layer,
            ) && final(sink)@.layers[layer] == old(sink)@.layers[layer]
            &&& rect.0 == layer && own ==> !(final(sink)@.rects.contains_key(hwnd) && final(sink)@.rects[hwnd].contains(rect))
            &&& rect.0 == layer && !own && holds_rect ==> final(sink)@.rects.contains_key(hwnd)
                && final(sink)@.rects[hwnd].contains(rect)
            &&& old(sink)@.focus_layer.contains_key(hwnd) && old(sink)@.focus_layer[hwnd] == layer
                ==> (final(sink)@.focus_layer.contains_key(hwnd) == !own)
        }),
        forall|i: int, j: int|
            0 <= i < j < unbound@.len() ==> unbound@[i] != unbound@[j],
        final(sink)@.sinks == old(sink)@.sinks,
        final(sink)@.next == old(sink)@.next,
        final(sink)@.left_down == old(sink)@.left_down,
        final(sink)@.shift_down == old(sink)@.shift_down,
{
    broadcast use vstd::seq_lib::group_filter_ensures;

    let gone = old(sink)@.layers_of(client);
    assert(unbound@.contains(layer) == unbound@.to_set().contains(layer));
    assert(gone.contains(layer) == (old(sink)@.layers.contains_key(layer) && old(
        sink,
    )@.layers[layer] == client));
    if old(sink)@.rects.contains_key(hwnd) {
        let keep = |rect: LayerRect| !gone.contains(rect.0);
        let rects = old(sink)@.rects[hwnd];
        let kept = rects.filter(keep);
        assert(final(sink)@.rects[hwnd] == kept);
        if kept.contains(rect) {
            assert(keep(kept[kept.index_of(rect)]));
        }
        if rects.contains(rect) && keep(rect) {
            assert(kept.contains(rects[rects.index_of(rect)]));
        }
    }
}

/// What is told to everybody reaches each connected client once, in the order in
/// which they came, and says the same to all.
pub proof fn law_everybody_is_told_the_same(
    sink: OverlayEventSink,
    event: OverlayEvent,
    out: Vec<Delivery>,
    i: int,
)
    requires
        call_ensures(OverlayEventSink::broadcast, (&sink, event), out),
        0 <= i < sink@.sinks.len(),
    ensures
        out@.len() == sink@.sinks.len(),
        out@[i].client == sink@.sinks[i],
        out@[i].event == event,
{
}

} // verus!
