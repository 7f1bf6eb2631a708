//! DirectInput devices of the game.
//!
//! The game's interface and devices are the real ones. What a device reports is
//! emptied while the overlay is interactive, and Tab is hidden while Shift is
//! held, since the two together call up the overlay.

use crate::backend::Backends;
use crate::event_sink::{Delivery, OverlayEventSink};
use crate::hook::hotkey::note_chord;
use dashmap::DashMap;
use vstd::prelude::*;

verus! {

/// The scan code of Tab.
pub const DIK_TAB: u8 = 0x0F;

/// The scan code of the left Shift.
pub const DIK_LSHIFT: u8 = 0x2A;

/// The scan code of the right Shift.
pub const DIK_RSHIFT: u8 = 0x36;

/// The system mouse.
pub const GUID_SYS_MOUSE: u128 = 0x6F1D2B60_D5A0_11CF_BFC7_444553540000;

/// The system keyboard.
pub const GUID_SYS_KEYBOARD: u128 = 0x6F1D2B61_D5A0_11CF_BFC7_444553540000;

/// The answer "not implemented".
pub const E_NOTIMPL: i32 = -0x7FFF_BFFF;

/// What a device is.
#[derive(Debug, Clone, Copy, PartialEq, Eq, Structural)]
pub enum DiDeviceKind {
    Keyboard,
    Mouse,
    Other,
}

/// How Shift and Tab were seen to be held, if they were.
#[derive(Debug, Clone, Copy, PartialEq, Eq, Structural)]
pub enum DiHotkey {
    Nothing,
    Unbuffered,
    Buffered,
}

/// A buffered event: the key or axis, and its new value.
#[derive(Debug, Clone, Copy, PartialEq, Eq, Structural)]
pub struct DiObjectData {
    pub dw_ofs: u32,
    pub dw_data: u32,
}

/// What was seen in a report of a device.
#[derive(Debug, Clone, Copy, PartialEq, Eq, Structural)]
pub struct DiKbOutcome {
    pub hotkey: DiHotkey,
}

/// Whether a value has the bit that marks a key as down.
pub open spec fn pressed(value: u8) -> bool {
    value & 0x80 != 0
}

/// Whether a key is down in a state of the keyboard.
pub open spec fn down(keys: Seq<u8>, dik: u8) -> bool {
    dik < keys.len() && pressed(keys[dik as int])
}

/// Whether one of the Shift keys is down.
pub open spec fn shifted(keys: Seq<u8>) -> bool {
    down(keys, DIK_LSHIFT) || down(keys, DIK_RSHIFT)
}

/// Whether Shift and Tab are down.
pub open spec fn chorded(keys: Seq<u8>) -> bool {
    shifted(keys) && down(keys, DIK_TAB)
}

/// As many zeros.
pub open spec fn zeros(len: nat) -> Seq<u8> {
    Seq::new(len, |i: int| 0u8)
}

/// The state with Tab up while Shift is down.
pub open spec fn without_tab(keys: Seq<u8>) -> Seq<u8> {
    if shifted(keys) {
        keys.update(DIK_TAB as int, 0)
    } else {
        keys
    }
}

/// The state of the keyboard as the game gets to see it.
pub open spec fn seen_keys(keys: Seq<u8>, interactive: bool) -> Seq<u8> {
    if interactive {
        zeros(keys.len())
    } else {
        without_tab(keys)
    }
}

/// The state of a device as the game gets to see it.
pub open spec fn seen_state(kind: DiDeviceKind, state: Seq<u8>, interactive: bool) -> Seq<u8> {
    match kind {
        DiDeviceKind::Keyboard => seen_keys(state, interactive),
        DiDeviceKind::Mouse => if interactive {
            zeros(state.len())
        } else {
            state
        },
        DiDeviceKind::Other => state,
    }
}

/// What a state of a device shows of Shift and Tab.
pub open spec fn state_hotkey(kind: DiDeviceKind, state: Seq<u8>) -> DiHotkey {
    if kind == DiDeviceKind::Keyboard && chorded(state) {
        DiHotkey::Unbuffered
    } else {
        DiHotkey::Nothing
    }
}

/// The state of the keyboard after a series of buffered events.
pub open spec fn noted(keys: Seq<u8>, events: Seq<DiObjectData>) -> Seq<u8>
    decreases events.len(),
{
    if events.len() == 0 {
        keys
    } else {
        let before = noted(keys, events.drop_last());
        let event = events.last();
        if event.dw_ofs < before.len() {
            before.update(
                event.dw_ofs as int,
                if event.dw_data & 0x80 != 0 {
                    0x80
                } else {
                    0
                },
            )
        } else {
            before
        }
    }
}

/// A buffered event of the keyboard as the game gets to see it.
pub open spec fn seen_key(event: DiObjectData, hide_tab: bool, interactive: bool) -> DiObjectData {
    if interactive || (hide_tab && event.dw_ofs == DIK_TAB) {
        DiObjectData { dw_data: 0, ..event }
    } else {
        event
    }
}

/// Buffered events of a device as the game gets to see them; `keys` is the state
/// of the keyboard before them.
pub open spec fn seen_events(
    kind: DiDeviceKind,
    keys: Seq<u8>,
    events: Seq<DiObjectData>,
    interactive: bool,
) -> Seq<DiObjectData> {
    let hide_tab = kind == DiDeviceKind::Keyboard && shifted(noted(keys, events));
    match kind {
        DiDeviceKind::Other => events,
        _ => Seq::new(events.len(), |i: int| seen_key(events[i], hide_tab, interactive)),
    }
}

/// The state of the keyboard that is remembered after buffered events.
pub open spec fn remembered(
    kind: DiDeviceKind,
    keys: Seq<u8>,
    events: Seq<DiObjectData>,
) -> Seq<u8> {
    if kind == DiDeviceKind::Keyboard {
        without_tab(noted(keys, events))
    } else {
        keys
    }
}

/// What buffered events show of Shift and Tab.
pub open spec fn events_hotkey(
    kind: DiDeviceKind,
    keys: Seq<u8>,
    events: Seq<DiObjectData>,
) -> DiHotkey {
    if kind == DiDeviceKind::Keyboard && chorded(noted(keys, events)) {
        DiHotkey::Buffered
    } else {
        DiHotkey::Nothing
    }
}

/// Whether a key is down in a state of the keyboard.
pub fn key_down(buf: &[u8], dik: u8) -> (is_down: bool)
    ensures
        is_down == down(buf@, dik),
{
    (dik as usize) < buf.len() && buf[dik as usize] & 0x80 != 0
}

/// Whether one of the Shift keys is down.
pub fn shift_down(buf: &[u8]) -> (is_down: bool)
    ensures
        is_down == shifted(buf@),
{
    key_down(buf, DIK_LSHIFT) || key_down(buf, DIK_RSHIFT)
}

/// Whether Shift and Tab are down.
pub fn chord(buf: &[u8]) -> (held: bool)
    ensures
        held == chorded(buf@),
{
    shift_down(buf) && key_down(buf, DIK_TAB)
}

/// Empties a state.
fn clear(buf: &mut [u8])
    ensures
        final(buf)@ == zeros(old(buf)@.len()),
{
    let n: usize = buf.len();
    let mut i: usize = 0;
    while i < n
        invariant
            i <= n,
            buf@.len() == n,
            n == old(buf)@.len(),
            forall|k: int| 0 <= k < i ==> buf@[k] == 0,
        decreases n - i,
    {
        buf[i] = 0;
        i += 1;
    }
    assert(buf@ =~= zeros(n as nat));
}

/// Looks for Shift and Tab in the state of the keyboard, and makes the state
/// what the game gets to see.
pub fn apply_kb_state(buf: &mut [u8], interactive: bool) -> (outcome: DiKbOutcome)
    ensures
        final(buf)@ == seen_keys(old(buf)@, interactive),
        outcome.hotkey == state_hotkey(DiDeviceKind::Keyboard, old(buf)@),
{
    let hotkey = if chord(buf) {
        DiHotkey::Unbuffered
    } else {
        DiHotkey::Nothing
    };
    if shift_down(buf) {
        buf[DIK_TAB as usize] = 0;
    }
    if interactive {
        clear(buf);
    }
    DiKbOutcome { hotkey }
}

/// Follows buffered events of the keyboard, looks for Shift and Tab, and makes
/// the events what the game gets to see.
pub fn apply_kb_data(
    shadow: &mut [u8; 256],
    data: &mut [DiObjectData],
    interactive: bool,
) -> (outcome: DiKbOutcome)
    ensures
        final(shadow)@ == remembered(DiDeviceKind::Keyboard, old(shadow)@, old(data)@),
        final(data)@ == seen_events(
            DiDeviceKind::Keyboard,
            old(shadow)@,
            old(data)@,
            interactive,
        ),
        outcome.hotkey == events_hotkey(DiDeviceKind::Keyboard, old(shadow)@, old(data)@),
{
    let ghost keys = shadow@;
    let ghost events = data@;
    let n: usize = data.len();
    let mut i: usize = 0;
    assert(events.take(0) =~= Seq::empty());
    while i < n
        invariant
            i <= n,
            data@ == events,
            n == events.len(),
            shadow@ == noted(keys, events.take(i as int)),
        decreases n - i,
    {
        let event = data[i];
        if event.dw_ofs < 256 {
            shadow[event.dw_ofs as usize] = if event.dw_data & 0x80 != 0 {
                0x80
            } else {
                0
            };
        }
        i += 1;
        proof {
            let taken = events.take(i as int);
            assert(taken.drop_last() =~= events.take(i - 1));
            assert(taken.last() == event);
        }
    }
    assert(events.take(i as int) =~= events);
    let hotkey = if chord(shadow.as_slice()) {
        DiHotkey::Buffered
    } else {
        DiHotkey::Nothing
    };
    let hide_tab = shift_down(shadow.as_slice());
    if hide_tab {
        shadow[DIK_TAB as usize] = 0;
    }
    let mut k: usize = 0;
    while k < n
        invariant
            k <= n,
            n == events.len(),
            data@.len() == n,
            forall|j: int| 0 <= j < k ==> data@[j] == seen_key(events[j], hide_tab, interactive),
            forall|j: int| k <= j < n ==> data@[j] == events[j],
        decreases n - k,
    {
        let event = data[k];
        if interactive || (hide_tab && event.dw_ofs == DIK_TAB as u32) {
            data[k] = DiObjectData { dw_ofs: event.dw_ofs, dw_data: 0 };
        }
        k += 1;
    }
    assert(data@ =~= seen_events(DiDeviceKind::Keyboard, keys, events, interactive));
    DiKbOutcome { hotkey }
}

/// Makes the state of a device what the game gets to see. Only the keyboard and
/// the mouse are touched.
pub fn apply_device_state(kind: DiDeviceKind, buf: &mut [u8], interactive: bool) -> (outcome:
    DiKbOutcome)
    ensures
        final(buf)@ == seen_state(kind, old(buf)@, interactive),
        outcome.hotkey == state_hotkey(kind, old(buf)@),
{
    match kind {
        DiDeviceKind::Keyboard => apply_kb_state(buf, interactive),
        DiDeviceKind::Mouse => {
            if interactive {
                clear(buf);
            }
            DiKbOutcome { hotkey: DiHotkey::Nothing }
        },
        DiDeviceKind::Other => DiKbOutcome { hotkey: DiHotkey::Nothing },
    }
}

/// Makes buffered events of a device what the game gets to see. Only those of
/// the keyboard and the mouse are touched.
pub fn apply_device_data(
    kind: DiDeviceKind,
    shadow: &mut [u8; 256],
    data: &mut [DiObjectData],
    interactive: bool,
) -> (outcome: DiKbOutcome)
    ensures
        final(shadow)@ == remembered(kind, old(shadow)@, old(data)@),
        final(data)@ == seen_events(kind, old(shadow)@, old(data)@, interactive),
        outcome.hotkey == events_hotkey(kind, old(shadow)@, old(data)@),
{
    match kind {
        DiDeviceKind::Keyboard => apply_kb_data(shadow, data, interactive),
        DiDeviceKind::Mouse => {
            let ghost events = data@;
            if interactive {
                let n: usize = data.len();
                let mut k: usize = 0;
                while k < n
                    invariant
                        k <= n,
                        n == events.len(),
                        data@.len() == n,
                        forall|j: int| 0 <= j < k ==> data@[j] == seen_key(events[j], false, true),
                        forall|j: int| k <= j < n ==> data@[j] == events[j],
                    decreases n - k,
                {
                    let event = data[k];
                    data[k] = DiObjectData { dw_ofs: event.dw_ofs, dw_data: 0 };
                    k += 1;
                }
            }
            assert(data@ =~= seen_events(kind, shadow@, events, interactive));
            DiKbOutcome { hotkey: DiHotkey::Nothing }
        },
        DiDeviceKind::Other => DiKbOutcome { hotkey: DiHotkey::Nothing },
    }
}

/// What is known of a device: its kind and its real functions.
#[derive(Debug, Clone, Copy, PartialEq, Eq, Structural)]
pub struct DeviceRec {
    pub kind: DiDeviceKind,
    pub get_state: usize,
    pub get_data: usize,
}

/// A map from devices to what is known of them.
pub type DeviceMap = DashMap<usize, DeviceRec>;

/// The devices that a map holds.
pub uninterp spec fn devices(map: DeviceMap) -> Map<usize, DeviceRec>;

/// No devices.
pub open spec fn no_devices() -> Map<usize, DeviceRec> {
    Map::empty()
}

/// `DashMap::new` makes a map that holds nothing.
#[verifier::external_body]
fn device_map() -> (made: DeviceMap)
    ensures
        devices(made) == no_devices(),
{
    DashMap::new()
}

/// `DashMap::insert` stores a record under a device, in place of what was there.
#[verifier::external_body]
fn device_insert(map: &mut DeviceMap, device: usize, rec: DeviceRec)
    ensures
        devices(*final(map)) == devices(*old(map)).insert(device, rec),
{
    map.insert(device, rec);
}

/// `DashMap::get` finds what is stored under a device.
#[verifier::external_body]
fn device_get(map: &DeviceMap, device: usize) -> (found: Option<DeviceRec>)
    ensures
        found == devices(*map).get(device),
{
    map.get(&device).map(|rec| *rec)
}

/// What is known of each device. Only what takes the table by `&mut` changes it.
pub struct DeviceTable {
    map: DeviceMap,
}

impl View for DeviceTable {
    type V = Map<usize, DeviceRec>;

    closed spec fn view(&self) -> Map<usize, DeviceRec> {
        devices(self.map)
    }
}

impl DeviceTable {
    /// A table that holds nothing.
    pub fn new() -> (made: DeviceTable)
        ensures
            made@ == no_devices(),
    {
        DeviceTable { map: device_map() }
    }

    /// Stores a record under a device, in place of what was there.
    pub fn insert(&mut self, device: usize, rec: DeviceRec)
        ensures
            final(self)@ == old(self)@.insert(device, rec),
    {
        device_insert(&mut self.map, device, rec);
    }

    /// What is stored under a device.
    pub fn get(&self, device: usize) -> (found: Option<DeviceRec>)
        ensures
            found == self@.get(device),
    {
        device_get(&self.map, device)
    }
}

/// The real function behind a detoured one.
#[derive(Debug, Clone, Copy, PartialEq, Eq, Structural)]
pub struct Detour {
    pub address: usize,
    pub original: usize,
}

/// The real function of the first detour at an address.
pub open spec fn detoured(hooks: Seq<Detour>, address: usize) -> Option<usize>
    decreases hooks.len(),
{
    if hooks.len() == 0 {
        None
    } else if hooks.first().address == address {
        Some(hooks.first().original)
    } else {
        detoured(hooks.drop_first(), address)
    }
}

/// The real function of the first detour.
pub open spec fn first_original(hooks: Seq<Detour>) -> Option<usize> {
    if hooks.len() == 0 {
        None
    } else {
        Some(hooks[0].original)
    }
}

/// Finds the detour at an address.
pub fn find_detour(hooks: &Vec<Detour>, address: usize) -> (original: Option<usize>)
    ensures
        original == detoured(hooks@, address),
{
    let mut i: usize = 0;
    assert(hooks@.skip(0) =~= hooks@);
    while i < hooks.len()
        invariant
            i <= hooks@.len(),
            detoured(hooks@, address) == detoured(hooks@.skip(i as int), address),
        decreases hooks@.len() - i,
    {
        assert(hooks@.skip(i as int).drop_first() =~= hooks@.skip(i + 1));
        if hooks[i].address == address {
            return Some(hooks[i].original);
        }
        i += 1;
    }
    None
}

/// Whether `found` is the real function behind `address`, and `after` the
/// detours once it is detoured. What is detoured stays as it is; else `attach`
/// detours it, and may fail to.
pub open spec fn attached<F: FnOnce(usize) -> Option<usize>>(
    before: Seq<Detour>,
    address: usize,
    attach: F,
    after: Seq<Detour>,
    found: Option<usize>,
) -> bool {
    match detoured(before, address) {
        Some(original) => after == before && found == Some(original),
        None => call_ensures(attach, (address,), found) && after == match found {
            Some(original) => before.push(Detour { address, original }),
            None => before,
        },
    }
}

/// Detours a function once, and tells the real function.
pub fn attach_slot<F: FnOnce(usize) -> Option<usize>>(
    hooks: &mut Vec<Detour>,
    address: usize,
    attach: F,
) -> (original: Option<usize>)
    requires
        detoured(old(hooks)@, address) is None ==> call_requires(attach, (address,)),
    ensures
        attached(old(hooks)@, address, attach, final(hooks)@, original),
{
    match find_detour(hooks, address) {
        Some(original) => Some(original),
        None => {
            let made = attach(address);
            if let Some(original) = made {
                hooks.push(Detour { address, original });
            }
            made
        },
    }
}

/// The kind of a device that reports its type.
pub open spec fn reported_kind(dev_type: u32) -> DiDeviceKind {
    let kind = dev_type & 0xFF;
    if kind == 2 || kind == 0x12 {
        DiDeviceKind::Mouse
    } else if kind == 3 || kind == 0x13 {
        DiDeviceKind::Keyboard
    } else {
        DiDeviceKind::Other
    }
}

/// The kind of a device from what it answers about itself: a status, and its
/// type. There is no answer from a device that cannot be asked.
pub fn caps_kind(answer: Option<(i32, u32)>) -> (kind: Option<DiDeviceKind>)
    ensures
        kind == match answer {
            Some((hr, dev_type)) if hr >= 0 => Some(reported_kind(dev_type)),
            _ => None,
        },
{
    match answer {
        None => None,
        Some((hr, dev_type)) => {
            if hr < 0 {
                return None;
            }
            Some(
                match dev_type & 0xFF {
                    2 | 0x12 => DiDeviceKind::Mouse,
                    3 | 0x13 => DiDeviceKind::Keyboard,
                    _ => DiDeviceKind::Other,
                },
            )
        },
    }
}

/// Whether `kind` is what a device is: by the name it was created under, else by
/// what it answers about itself.
pub open spec fn classified<F: FnOnce() -> Option<(i32, u32)>>(
    guid: Option<u128>,
    caps: F,
    kind: DiDeviceKind,
) -> bool {
    if guid == Some(GUID_SYS_KEYBOARD) {
        kind == DiDeviceKind::Keyboard
    } else if guid == Some(GUID_SYS_MOUSE) {
        kind == DiDeviceKind::Mouse
    } else {
        exists|answer: Option<(i32, u32)>| #[trigger]
            call_ensures(caps, (), answer) && kind == match answer {
                Some((hr, dev_type)) if hr >= 0 => reported_kind(dev_type),
                _ => DiDeviceKind::Other,
            }
    }
}

/// Tells what a device is.
pub fn classify<F: FnOnce() -> Option<(i32, u32)>>(guid: Option<u128>, caps: F) -> (kind:
    DiDeviceKind)
    requires
        guid != Some(GUID_SYS_KEYBOARD) && guid != Some(GUID_SYS_MOUSE) ==> call_requires(caps, ()),
    ensures
        classified(guid, caps, kind),
{
    if let Some(guid) = guid {
        if guid == GUID_SYS_KEYBOARD {
            return DiDeviceKind::Keyboard;
        }
        if guid == GUID_SYS_MOUSE {
            return DiDeviceKind::Mouse;
        }
    }
    let answer = caps();
    assert(call_ensures(caps, (), answer));
    match caps_kind(answer) {
        Some(kind) => kind,
        None => DiDeviceKind::Other,
    }
}

/// The detoured functions of interfaces and devices, the devices, and what is
/// remembered of the keyboard.
pub struct DirectInput {
    pub create: Vec<Detour>,
    pub state: Vec<Detour>,
    pub data: Vec<Detour>,
    pub devices: DeviceTable,
    pub shadow: [u8; 256],
    pub chord: bool,
}

impl DirectInput {
    /// Nothing detoured, no devices, no key down.
    pub fn new() -> (input: DirectInput)
        ensures
            input.create@.len() == 0,
            input.state@.len() == 0,
            input.data@.len() == 0,
            input.devices@ == no_devices(),
            input.shadow@ == zeros(256),
            !input.chord,
    {
        let shadow: [u8; 256] = [0; 256];
        assert(shadow@ =~= zeros(256));
        DirectInput {
            create: Vec::new(),
            state: Vec::new(),
            data: Vec::new(),
            devices: DeviceTable::new(),
            shadow,
            chord: false,
        }
    }
}

/// Detours the creation of devices of an interface whose creation succeeded;
/// `create_device` is its function, if the interface has one.
pub fn after_create<F: FnOnce(usize) -> Option<usize>>(
    hooks: &mut Vec<Detour>,
    hr: i32,
    create_device: Option<usize>,
    attach: F,
)
    requires
        create_device matches Some(address) ==> (hr >= 0 && detoured(old(hooks)@, address) is None
            ==> call_requires(attach, (address,))),
    ensures
        match create_device {
            Some(address) if hr >= 0 => exists|found: Option<usize>| #[trigger]
                attached(old(hooks)@, address, attach, final(hooks)@, found),
            _ => final(hooks)@ == old(hooks)@,
        },
{
    if hr < 0 {
        return ;
    }
    if let Some(address) = create_device {
        let found = attach_slot(hooks, address, attach);
        assert(attached(old(hooks)@, address, attach, hooks@, found));
    }
}

/// The function that really creates a device of an interface: that behind the
/// interface's own, else the first that was detoured.
pub open spec fn creator(hooks: Seq<Detour>, address: Option<usize>) -> Option<usize> {
    match address {
        Some(address) => match detoured(hooks, address) {
            Some(original) => Some(original),
            None => first_original(hooks),
        },
        None => first_original(hooks),
    }
}

/// Finds the function that really creates a device of an interface.
pub fn find_creator(hooks: &Vec<Detour>, address: Option<usize>) -> (original: Option<usize>)
    ensures
        original == creator(hooks@, address),
{
    if let Some(address) = address {
        if let Some(original) = find_detour(hooks, address) {
            return Some(original);
        }
    }
    if hooks.len() == 0 {
        None
    } else {
        Some(hooks[0].original)
    }
}

/// The answer to the creation of a device: that of the function that really
/// creates it, and "not implemented" without one.
pub fn create_device(
    hooks: &Vec<Detour>,
    address: Option<usize>,
    call: impl FnOnce(usize) -> i32,
) -> (hr: i32)
    requires
        creator(hooks@, address) matches Some(original) ==> call_requires(call, (original,)),
    ensures
        match creator(hooks@, address) {
            Some(original) => call_ensures(call, (original,), hr),
            None => hr == E_NOTIMPL,
        },
{
    match find_creator(hooks, address) {
        Some(original) => call(original),
        None => E_NOTIMPL,
    }
}

/// The devices once the functions of one of them are detoured, which may have
/// failed.
pub open spec fn recorded(
    known: Map<usize, DeviceRec>,
    device: usize,
    kind: DiDeviceKind,
    state_fn: Option<usize>,
    data_fn: Option<usize>,
) -> Map<usize, DeviceRec> {
    match (state_fn, data_fn) {
        (Some(get_state), Some(get_data)) => known.insert(
            device,
            DeviceRec { kind, get_state, get_data },
        ),
        _ => known,
    }
}

impl DirectInput {
    /// Detours the functions of a device, and remembers it if both are
    /// detoured. A device that lacks one of them is left alone.
    pub fn hook_device<F: FnOnce(usize) -> Option<usize>, G: FnOnce(usize) -> Option<usize>>(
        &mut self,
        device: usize,
        kind: DiDeviceKind,
        get_state: Option<usize>,
        get_data: Option<usize>,
        attach_state: F,
        attach_data: G,
    )
        requires
            get_state is Some && get_data is Some && detoured(old(self).state@, get_state->0) is None
                ==> call_requires(attach_state, (get_state->0,)),
            get_state is Some && get_data is Some && detoured(old(self).data@, get_data->0) is None
                ==> call_requires(attach_data, (get_data->0,)),
        ensures
            final(self).create == old(self).create,
            final(self).shadow == old(self).shadow,
            final(self).chord == old(self).chord,
            get_state is None || get_data is None ==> final(self).state@ == old(self).state@
                && final(self).data@ == old(self).data@ && final(self).devices@ == old(self).devices@,
            get_state is Some && get_data is Some ==> exists|
                state_fn: Option<usize>,
                data_fn: Option<usize>,
            |
                #![trigger recorded(old(self).devices@, device, kind, state_fn, data_fn)]
                attached(
                    old(self).state@,
                    get_state->0,
                    attach_state,
                    final(self).state@,
                    state_fn,
                ) && attached(
                    old(self).data@,
                    get_data->0,
                    attach_data,
                    final(self).data@,
                    data_fn,
                ) && final(self).devices@ == recorded(
                    old(self).devices@,
                    device,
                    kind,
                    state_fn,
                    data_fn,
                ),
    {
        match (get_state, get_data) {
            (Some(state), Some(data)) => {
                let state_fn = attach_slot(&mut self.state, state, attach_state);
                let data_fn = attach_slot(&mut self.data, data, attach_data);
                if let (Some(get_state), Some(get_data)) = (state_fn, data_fn) {
                    self.devices.insert(device, DeviceRec { kind, get_state, get_data });
                }
                assert(self.devices@ == recorded(
                    old(self).devices@,
                    device,
                    kind,
                    state_fn,
                    data_fn,
                ));
            },
            _ => {},
        }
    }

    /// The kind of a device that reports a state: what is remembered of it, else
    /// what the size of the state tells.
    pub open spec fn state_kind(self, device: usize, cb: u32) -> DiDeviceKind {
        match self.devices@.get(device) {
            Some(rec) => rec.kind,
            None => if cb == 256 {
                DiDeviceKind::Keyboard
            } else if cb == 16 || cb == 20 {
                DiDeviceKind::Mouse
            } else {
                DiDeviceKind::Other
            },
        }
    }

    /// Tells the kind of a device that reports a state of `cb` bytes.
    pub fn infer_state_kind(&self, device: usize, cb: u32) -> (kind: DiDeviceKind)
        ensures
            kind == self.state_kind(device, cb),
    {
        if let Some(rec) = self.devices.get(device) {
            return rec.kind;
        }
        match cb {
            256 => DiDeviceKind::Keyboard,
            16 | 20 => DiDeviceKind::Mouse,
            _ => DiDeviceKind::Other,
        }
    }

    /// The real function that reads the state of a device.
    pub open spec fn state_original(self, device: usize) -> Option<usize> {
        match self.devices@.get(device) {
            Some(rec) => Some(rec.get_state),
            None => first_original(self.state@),
        }
    }

    /// The real function that reads the buffered events of a device.
    pub open spec fn data_original(self, device: usize) -> Option<usize> {
        match self.devices@.get(device) {
            Some(rec) => Some(rec.get_data),
            None => first_original(self.data@),
        }
    }

    /// Calls the real function that reads the state of a device; without one
    /// nothing is read.
    pub fn call_original_state(&self, device: usize, call: impl FnOnce(usize) -> i32) -> (hr: i32)
        requires
            self.state_original(device) matches Some(original) ==> call_requires(call, (original,)),
        ensures
            match self.state_original(device) {
                Some(original) => call_ensures(call, (original,), hr),
                None => hr == 0,
            },
    {
        if let Some(rec) = self.devices.get(device) {
            return call(rec.get_state);
        }
        if self.state.len() > 0 {
            call(self.state[0].original)
        } else {
            0
        }
    }

    /// Calls the real function that reads the buffered events of a device;
    /// without one nothing is read.
    pub fn call_original_data(&self, device: usize, call: impl FnOnce(usize) -> i32) -> (hr: i32)
        requires
            self.data_original(device) matches Some(original) ==> call_requires(call, (original,)),
        ensures
            match self.data_original(device) {
                Some(original) => call_ensures(call, (original,), hr),
                None => hr == 0,
            },
    {
        if let Some(rec) = self.devices.get(device) {
            return call(rec.get_data);
        }
        if self.data.len() > 0 {
            call(self.data[0].original)
        } else {
            0
        }
    }

    /// Notes what a report shows of Shift and Tab, and reports them to the
    /// clients when they are newly held.
    pub fn note_hotkey(
        &mut self,
        kind: DiHotkey,
        backends: &Backends,
        sink: &mut OverlayEventSink,
    ) -> (out: Vec<Delivery>)
        ensures
            *final(self) == (DirectInput { chord: kind != DiHotkey::Nothing, ..*old(self) }),
            if crate::hook::hotkey::rises(old(self).chord, kind != DiHotkey::Nothing) {
                crate::hook::hotkey::reported(backends@, old(sink)@, final(sink)@, out@)
            } else {
                final(sink)@ == old(sink)@ && out@.len() == 0
            },
    {
        note_chord(&mut self.chord, kind != DiHotkey::Nothing, backends, sink)
    }

    /// What is done about the state of a device that was read with `hr`: it is
    /// made what the game gets to see, and Shift and Tab are noted. Where there
    /// is no room for a state, `buf` is empty.
    pub fn after_get_state(
        &mut self,
        device: usize,
        hr: i32,
        buf: &mut [u8],
        backends: &Backends,
        sink: &mut OverlayEventSink,
    ) -> (out: Vec<Delivery>)
        requires
            old(buf)@.len() <= u32::MAX,
        ensures
            if hr < 0 || old(buf)@.len() == 0 {
                *final(self) == *old(self) && final(buf)@ == old(buf)@ && final(sink)@ == old(
                    sink,
                )@ && out@.len() == 0
            } else {
                let kind = old(self).state_kind(device, old(buf)@.len() as u32);
                let hotkey = state_hotkey(kind, old(buf)@);
                &&& final(buf)@ == seen_state(
                    kind,
                    old(buf)@,
                    crate::backend::any_blocked(backends@),
                )
                &&& *final(self) == (DirectInput { chord: hotkey != DiHotkey::Nothing, ..*old(self)
                })
                &&& if crate::hook::hotkey::rises(old(self).chord, hotkey != DiHotkey::Nothing) {
                    crate::hook::hotkey::reported(backends@, old(sink)@, final(sink)@, out@)
                } else {
                    final(sink)@ == old(sink)@ && out@.len() == 0
                }
            },
    {
        if hr < 0 || buf.len() == 0 {
            return Vec::new();
        }
        let kind = self.infer_state_kind(device, buf.len() as u32);
        let outcome = apply_device_state(kind, buf, backends.any_blocking());
        self.note_hotkey(outcome.hotkey, backends, sink)
    }

    /// The kind of a device that reports buffered events.
    pub open spec fn data_kind(self, device: usize) -> DiDeviceKind {
        match self.devices@.get(device) {
            Some(rec) => rec.kind,
            None => DiDeviceKind::Other,
        }
    }

    /// What is done about buffered events of a device that were read with `hr`.
    /// `count` is how many were read, where the game asks for it; `readable`
    /// tells whether there is room for them, of `cb` bytes each. The events are
    /// made what the game gets to see; the second result is the count that it
    /// sees.
    pub fn after_get_data(
        &mut self,
        device: usize,
        hr: i32,
        count: Option<u32>,
        readable: bool,
        cb: u32,
        events: &mut Vec<DiObjectData>,
        backends: &Backends,
        sink: &mut OverlayEventSink,
    ) -> (outcome: (Vec<Delivery>, Option<u32>))
        ensures
            ({
                let kind = old(self).data_kind(device);
                let interactive = crate::backend::any_blocked(backends@);
                if hr < 0 || count is None || kind == DiDeviceKind::Other {
                    *final(self) == *old(self) && final(events)@ == old(events)@ && final(sink)@
                        == old(sink)@ && outcome.0@.len() == 0 && outcome.1 == count
                } else if !readable || cb < 8 || count == Some(0u32) {
                    *final(self) == *old(self) && final(events)@ == old(events)@ && final(sink)@
                        == old(sink)@ && outcome.0@.len() == 0 && outcome.1 == if interactive
                        && kind == DiDeviceKind::Mouse {
                        Some(0u32)
                    } else {
                        count
                    }
                } else {
                    let hotkey = events_hotkey(kind, old(self).shadow@, old(events)@);
                    &&& final(events)@ == seen_events(
                        kind,
                        old(self).shadow@,
                        old(events)@,
                        interactive,
                    )
                    &&& final(self).shadow@ == remembered(kind, old(self).shadow@, old(events)@)
                    &&& *final(self) == (DirectInput {
                        shadow: final(self).shadow,
                        chord: hotkey != DiHotkey::Nothing,
                        ..*old(self)
                    })
                    &&& outcome.1 == if interactive {
                        Some(0u32)
                    } else {
                        count
                    }
                    &&& if crate::hook::hotkey::rises(
                        old(self).chord,
                        hotkey != DiHotkey::Nothing,
                    ) {
                        crate::hook::hotkey::reported(
                            backends@,
                            old(sink)@,
                            final(sink)@,
                            outcome.0@,
                        )
                    } else {
                        final(sink)@ == old(sink)@ && outcome.0@.len() == 0
                    }
                }
            }),
    {
        let kind = match self.devices.get(device) {
            Some(rec) => rec.kind,
            None => DiDeviceKind::Other,
        };
        let read: u32 = match count {
            Some(read) => read,
            None => 0,
        };
        if hr < 0 || count.is_none() || kind == DiDeviceKind::Other {
            return (Vec::new(), count);
        }
        let interactive = backends.any_blocking();
        if !readable || cb < 8 || read == 0 {
            if interactive && kind == DiDeviceKind::Mouse {
                return (Vec::new(), Some(0));
            }
            return (Vec::new(), count);
        }
        let outcome = apply_device_data(
            kind,
            &mut self.shadow,
            events.as_mut_slice(),
            interactive,
        );
        let out = self.note_hotkey(outcome.hotkey, backends, sink);
        if interactive {
            (out, Some(0))
        } else {
            (out, count)
        }
    }
}

/// While the overlay is interactive the game sees no key as down.
pub proof fn law_interactive_keyboard_is_idle(keys: Seq<u8>, dik: u8)
    ensures
        !down(seen_keys(keys, true), dik),
{
    assert(0u8 & 0x80u8 == 0u8) by (bit_vector);
}

/// The game never sees Tab as down while it sees Shift as down.
pub proof fn law_game_never_sees_the_chord(keys: Seq<u8>, interactive: bool)
    ensures
        !chorded(seen_keys(keys, interactive)),
{
    assert(0u8 & 0x80u8 == 0u8) by (bit_vector);
    assert(seen_keys(keys, interactive).len() == keys.len());
    if !interactive && shifted(keys) {
        assert(seen_keys(keys, false)[DIK_TAB as int] == 0);
    }
}

/// Devices other than the keyboard and the mouse are left alone, whatever the
/// overlay does.
pub proof fn law_other_devices_pass(
    state: Seq<u8>,
    keys: Seq<u8>,
    events: Seq<DiObjectData>,
    interactive: bool,
)
    ensures
        seen_state(DiDeviceKind::Other, state, interactive) == state,
        seen_events(DiDeviceKind::Other, keys, events, interactive) == events,
        remembered(DiDeviceKind::Other, keys, events) == keys,
{
}

/// A key is down exactly if its place lies in the state and holds the high bit;
/// Shift is the key at 42 or that at 54, and the chord is Shift with the key at
/// 15.
pub proof fn law_keys_are_read_in_their_places(
    buf: &[u8],
    dik: u8,
    is_down: bool,
    left: bool,
    right: bool,
    tab: bool,
    shift: bool,
    held: bool,
)
    requires
        call_ensures(key_down, (buf, dik), is_down),
        call_ensures(key_down, (buf, 0x2Au8), left),
        call_ensures(key_down, (buf, 0x36u8), right),
        call_ensures(key_down, (buf, 0x0Fu8), tab),
        call_ensures(shift_down, (buf,), shift),
        call_ensures(chord, (buf,), held),
    ensures
        is_down <==> (dik < buf@.len() && buf@[dik as int] >= 128),
        shift <==> (left || right),
        held <==> (shift && tab),
{
    if dik < buf@.len() {
        let value = buf@[dik as int];
        assert((value & 0x80 != 0) == (value >= 128)) by (bit_vector);
    }
}

/// What the game sees of the keyboard: nothing while the overlay is
/// interactive; else every key as it is, but Tab, which is up while Shift is
/// held. The chord is noticed in what was read, whatever the game sees.
pub proof fn law_keyboard_state_as_seen(
    buf: &mut [u8],
    interactive: bool,
    outcome: DiKbOutcome,
    i: int,
    shift: bool,
    held: bool,
)
    requires
        call_ensures(apply_kb_state, (buf, interactive), outcome),
        call_ensures(shift_down, (&*buf,), shift),
        call_ensures(chord, (&*buf,), held),
        0 <= i < buf@.len(),
    ensures
        final(buf)@.len() == old(buf)@.len(),
        interactive ==> final(buf)@[i] == 0,
        !interactive && shift && i == 15 ==> final(buf)@[i] == 0,
        !interactive && !(shift && i == 15) ==> final(buf)@[i] == old(buf)@[i],
        held ==> outcome.hotkey is Unbuffered,
        !held ==> outcome.hotkey is Nothing,
{
}

/// What the game sees of a device's state: a keyboard's as above, nothing of a
/// mouse while the overlay is interactive, and another device's as it is. Only
/// a keyboard shows the chord.
pub proof fn law_device_state_as_seen(
    kind: DiDeviceKind,
    buf: &mut [u8],
    interactive: bool,
    outcome: DiKbOutcome,
    i: int,
    shift: bool,
    held: bool,
)
    requires
        call_ensures(apply_device_state, (kind, buf, interactive), outcome),
        call_ensures(shift_down, (&*buf,), shift),
        call_ensures(chord, (&*buf,), held),
        0 <= i < buf@.len(),
    ensures
        final(buf)@.len() == old(buf)@.len(),
        kind is Other ==> final(buf)@[i] == old(buf)@[i],
        !(kind is Other) && interactive ==> final(buf)@[i] == 0,
        kind is Mouse && !interactive ==> final(buf)@[i] == old(buf)@[i],
        kind is Keyboard && !interactive ==> final(buf)@[i] == (if shift && i == 15 {
            0
        } else {
            old(buf)@[i]
        }),
        outcome.hotkey == (if kind is Keyboard && held {
            DiHotkey::Unbuffered
        } else {
            DiHotkey::Nothing
        }),
{
}

/// After a series of buffered events a key is as its last event says, and as it
/// was before without one.
proof fn lemma_noted(keys: Seq<u8>, events: Seq<DiObjectData>, key: int)
    requires
        0 <= key < keys.len(),
    ensures
        noted(keys, events).len() == keys.len(),
        (forall|j: int| 0 <= j < events.len() ==> (#[trigger] events[j]).dw_ofs != key)
            ==> noted(keys, events)[key] == keys[key],
        forall|j: int|
            0 <= j < events.len() && (#[trigger] events[j]).dw_ofs == key && (forall|l: int|
                j < l < events.len() ==> (#[trigger] events[l]).dw_ofs != key) ==> noted(
                keys,
                events,
            )[key] == (if events[j].dw_data & 0x80 != 0 {
                0x80u8
            } else {
                0
            }),
    decreases events.len(),
{
    if events.len() > 0 {
        let fewer = events.drop_last();
        lemma_noted(keys, fewer, key);
        assert(forall|j: int| 0 <= j < fewer.len() ==> events[j] == #[trigger] fewer[j]);
        assert(events.last() == events[events.len() - 1]);
        if events.last().dw_ofs != key {
            assert(noted(keys, events)[key] == noted(keys, fewer)[key]);
            assert forall|j: int|
                0 <= j < events.len() && (#[trigger] events[j]).dw_ofs == key && (forall|l: int|
                    j < l < events.len() ==> (#[trigger] events[l]).dw_ofs != key) implies noted(
                keys,
                events,
            )[key] == (if events[j].dw_data & 0x80 != 0 {
                0x80u8
            } else {
                0
            }) by {
                assert(j < fewer.len());
                assert(fewer[j] == events[j]);
                assert forall|l: int| j < l < fewer.len() implies (#[trigger] fewer[l]).dw_ofs
                    != key by {
                    assert(events[l].dw_ofs != key);
                }
            }
            if forall|j: int| 0 <= j < events.len() ==> (#[trigger] events[j]).dw_ofs != key {
                assert forall|j: int| 0 <= j < fewer.len() implies (#[trigger] fewer[j]).dw_ofs
                    != key by {
                    assert(events[j].dw_ofs != key);
                }
            }
        }
    }
}

/// A key that comes in no event is remembered as it was, and one that comes as
/// its last event leaves it; Tab is forgotten while Shift is held.
pub proof fn law_keyboard_is_followed(
    shadow: &mut [u8; 256],
    data: &mut [DiObjectData],
    interactive: bool,
    outcome: DiKbOutcome,
    key: int,
    last: int,
)
    requires
        call_ensures(apply_kb_data, (shadow, data, interactive), outcome),
        0 <= key < 256,
        key != 15,
    ensures
        (forall|j: int| 0 <= j < old(data)@.len() ==> (#[trigger] old(data)@[j]).dw_ofs != key)
            ==> final(shadow)@[key] == old(shadow)@[key],
        0 <= last < old(data)@.len() && old(data)@[last].dw_ofs == key && (forall|j: int|
            last < j < old(data)@.len() ==> (#[trigger] old(data)@[j]).dw_ofs != key) ==> final(shadow)@[key] == (if old(data)@[last].dw_data & 0x80 != 0 {
            128u8
        } else {
            0
        }),
{
    lemma_noted(old(shadow)@, old(data)@, key);
    let events = old(data)@;
    if 0 <= last < events.len() && events[last].dw_ofs == key {
        assert(events[last].dw_ofs == key);
    }
}

/// Buffered events stay as many, and each keeps its key. Interactive, none has
/// a value; else only Tab loses its own, and only while Shift is held.
pub proof fn law_buffered_keys_as_seen(
    shadow: &mut [u8; 256],
    data: &mut [DiObjectData],
    interactive: bool,
    outcome: DiKbOutcome,
    i: int,
)
    requires
        call_ensures(apply_kb_data, (shadow, data, interactive), outcome),
        0 <= i < data@.len(),
    ensures
        final(data)@.len() == old(data)@.len(),
        final(data)@[i].dw_ofs == old(data)@[i].dw_ofs,
        interactive ==> final(data)@[i].dw_data == 0,
        !interactive && old(data)@[i].dw_ofs != 15 ==> final(data)@[i].dw_data == old(data)@[i].dw_data,
        !interactive && old(data)@[i].dw_ofs == 15 ==> final(data)@[i].dw_data == (if final(shadow)@[42] >= 128 || final(shadow)@[54] >= 128 {
            0
        } else {
            old(data)@[i].dw_data
        }),
        final(shadow)@[42] >= 128 || final(shadow)@[54] >= 128 ==> final(shadow)@[15] == 0,
        !(outcome.hotkey is Unbuffered),
        outcome.hotkey is Buffered ==> final(shadow)@[42] >= 128 || final(shadow)@[54] >= 128,
{
    lemma_noted(old(shadow)@, old(data)@, 15);
    let keys = noted(old(shadow)@, old(data)@);
    let left = keys[42];
    let right = keys[54];
    assert((left & 0x80 != 0) == (left >= 128)) by (bit_vector);
    assert((right & 0x80 != 0) == (right >= 128)) by (bit_vector);
}

/// The chord is noticed once Shift was pressed, and then Tab, in whatever
/// reports, and neither was released since.
pub proof fn law_buffered_chord_is_noticed(
    shadow: &mut [u8; 256],
    data: &mut [DiObjectData],
    interactive: bool,
    outcome: DiKbOutcome,
)
    requires
        call_ensures(apply_kb_data, (shadow, data, interactive), outcome),
        data@.len() == 1,
    ensures
        old(data)@[0].dw_ofs == 15 && old(data)@[0].dw_data & 0x80 != 0 && (old(shadow)@[42] >= 128 || old(shadow)@[54] >= 128) ==> outcome.hotkey is Buffered,
        old(data)@[0].dw_ofs == 15 && old(data)@[0].dw_data & 0x80 == 0 ==> outcome.hotkey is Nothing,
        old(data)@[0].dw_ofs == 15 && old(shadow)@[42] < 128 && old(shadow)@[54] < 128
            ==> outcome.hotkey is Nothing,
        (old(data)@[0].dw_ofs == 42 || old(data)@[0].dw_ofs == 54) && old(data)@[0].dw_data & 0x80 != 0 && old(shadow)@[15] >= 128 ==> outcome.hotkey is Buffered,
{
    let keys = old(shadow)@;
    let after = noted(keys, old(data)@);
    assert(old(data)@.drop_last() =~= Seq::empty());
    assert(noted(keys, Seq::empty()) == keys);
    let (a, b, c) = (keys[42], keys[54], keys[15]);
    assert((a & 0x80 != 0) == (a >= 128) && (b & 0x80 != 0) == (b >= 128) && (c & 0x80 != 0) == (c
        >= 128) && 0x80u8 & 0x80 != 0 && 0u8 & 0x80 == 0) by (bit_vector);
}

/// Buffered events of a mouse lose their values while the overlay is
/// interactive, and those of another device never; neither is followed as a
/// keyboard. A keyboard's are treated as a keyboard's.
pub proof fn law_device_events_as_seen(
    kind: DiDeviceKind,
    shadow: &mut [u8; 256],
    data: &mut [DiObjectData],
    interactive: bool,
    outcome: DiKbOutcome,
    i: int,
)
    requires
        call_ensures(apply_device_data, (kind, shadow, data, interactive), outcome),
        0 <= i < data@.len(),
    ensures
        final(data)@.len() == old(data)@.len(),
        final(data)@[i].dw_ofs == old(data)@[i].dw_ofs,
        !(kind is Keyboard) ==> final(shadow)@ == old(shadow)@ && outcome.hotkey is Nothing,
        kind is Other ==> final(data)@[i] == old(data)@[i],
        kind is Mouse && !interactive ==> final(data)@[i] == old(data)@[i],
        !(kind is Other) && interactive ==> final(data)@[i].dw_data == 0,
        kind is Keyboard && !interactive && old(data)@[i].dw_ofs != 15 ==> final(data)@[i] == old(data)@[i],
        kind is Keyboard ==> final(shadow)@ == remembered(
            DiDeviceKind::Keyboard,
            old(shadow)@,
            old(data)@,
        ) && outcome.hotkey == events_hotkey(
            DiDeviceKind::Keyboard,
            old(shadow)@,
            old(data)@,
        ),
{
}

/// What is stored under a device is found under it, and what is stored under
/// another stays.
pub proof fn law_devices_are_found_as_stored(
    table: &mut DeviceTable,
    device: usize,
    rec: DeviceRec,
    later: DeviceTable,
    found: Option<DeviceRec>,
    other: usize,
    before: Option<DeviceRec>,
    after: Option<DeviceRec>,
)
    requires
        call_ensures(DeviceTable::insert, (table, device, rec), ()),
        later == *final(table),
        call_ensures(DeviceTable::get, (&later, device), found),
        other != device,
        call_ensures(DeviceTable::get, (&*table, other), before),
        call_ensures(DeviceTable::get, (&later, other), after),
    ensures
        found == Some(rec),
        after == before,
{
}

/// A found detour is one of the list at the address.
proof fn lemma_detoured(hooks: Seq<Detour>, address: usize)
    ensures
        detoured(hooks, address) is None <==> (forall|i: int|
            0 <= i < hooks.len() ==> (#[trigger] hooks[i]).address != address),
        detoured(hooks, address) matches Some(original) ==> exists|i: int|
            0 <= i < hooks.len() && (#[trigger] hooks[i]).address == address && hooks[i].original
                == original && (forall|k: int|
                0 <= k < i ==> (#[trigger] hooks[k]).address != address),
    decreases hooks.len(),
{
    if hooks.len() > 0 {
        let rest = hooks.drop_first();
        if hooks.first().address == address {
            assert(hooks[0].address == address);
        } else {
            lemma_detoured(rest, address);
            if detoured(rest, address) is None {
                assert forall|i: int| 0 <= i < hooks.len() implies (#[trigger] hooks[i]).address
                    != address by {
                    if i > 0 {
                        assert(rest[i - 1] == hooks[i]);
                    }
                }
            } else {
                let i = choose|i: int|
                    0 <= i < rest.len() && (#[trigger] rest[i]).address == address
                        && rest[i].original == detoured(rest, address)->0 && (forall|k: int|
                        0 <= k < i ==> (#[trigger] rest[k]).address != address);
                assert(hooks[i + 1] == rest[i]);
                assert forall|k: int| 0 <= k < i + 1 implies (#[trigger] hooks[k]).address
                    != address by {
                    if k > 0 {
                        assert(rest[k - 1] == hooks[k]);
                    }
                }
            }
        }
    }
}

/// A detour is found exactly if one stands at the address, and it is the first
/// that does.
pub proof fn law_first_detour_is_found(
    hooks: Vec<Detour>,
    address: usize,
    original: Option<usize>,
    i: int,
)
    requires
        call_ensures(find_detour, (&hooks, address), original),
        0 <= i < hooks@.len(),
    ensures
        hooks@[i].address == address && (forall|k: int|
            0 <= k < i ==> (#[trigger] hooks@[k]).address != address) ==> original == Some(
            hooks@[i].original,
        ),
        original is None ==> hooks@[i].address != address,
        original is Some ==> exists|k: int|
            0 <= k < hooks@.len() && (#[trigger] hooks@[k]).address == address
                && hooks@[k].original == original->0,
{
    lemma_detoured(hooks@, address);
}

/// A function that is detoured is not detoured again, and its real function is
/// told. One that is not is detoured with its address, and its real function
/// can be found under that from then on; a failure leaves nothing.
pub proof fn law_slot_is_detoured_once<F: FnOnce(usize) -> Option<usize>>(
    hooks: &mut Vec<Detour>,
    address: usize,
    attach: F,
    original: Option<usize>,
    before: Option<usize>,
    later: Vec<Detour>,
    after: Option<usize>,
)
    requires
        call_ensures(find_detour, (&*hooks, address), before),
        call_ensures(attach_slot::<F>, (hooks, address, attach), original),
        later@ == final(hooks)@,
        call_ensures(find_detour, (&later, address), after),
    ensures
        before is Some ==> original == before && final(hooks)@ == old(hooks)@,
        before is None ==> call_ensures(attach, (address,), original),
        before is None && original is None ==> final(hooks)@ == old(hooks)@,
        before is None && original is Some ==> final(hooks)@.len() == old(hooks)@.len() + 1 && final(hooks)@.last() == (Detour { address, original: original->0 }),
        forall|i: int|
            0 <= i < old(hooks)@.len() ==> #[trigger] final(hooks)@[i] == old(hooks)@[i],
        after == original,
{
    lemma_detoured(old(hooks)@, address);
    lemma_detoured(final(hooks)@, address);
    if before is None && original is Some {
        let n = old(hooks)@.len() as int;
        assert(final(hooks)@[n].address == address);
    }
}

/// A device that answers about itself is a mouse if its type is 2 or 18, a
/// keyboard if it is 3 or 19, by the lowest byte; one that does not is unknown.
pub proof fn law_devices_tell_what_they_are(
    answer: Option<(i32, u32)>,
    kind: Option<DiDeviceKind>,
)
    requires
        call_ensures(caps_kind, (answer,), kind),
    ensures
        answer is None ==> kind is None,
        answer matches Some(told) ==> {
            &&& told.0 < 0 <==> kind is None
            &&& kind == Some(DiDeviceKind::Mouse) <==> (told.0 >= 0 && (told.1 % 256 == 2 || told.1
                % 256 == 18))
            &&& kind == Some(DiDeviceKind::Keyboard) <==> (told.0 >= 0 && (told.1 % 256 == 3
                || told.1 % 256 == 19))
        },
{
    if let Some(told) = answer {
        let dev_type = told.1;
        assert(dev_type & 0xFF == dev_type % 256) by (bit_vector);
    }
}

/// A device that was created under the name of the system keyboard,
/// `6F1D2B61-D5A0-11CF-BFC7-444553540000`, is one, and so the system mouse,
/// `6F1D2B60-..`; neither is asked. Another is what it tells.
pub proof fn law_system_devices_are_known<F: FnOnce() -> Option<(i32, u32)>>(
    guid: Option<u128>,
    caps: F,
    kind: DiDeviceKind,
)
    requires
        call_ensures(classify::<F>, (guid, caps), kind),
    ensures
        guid == Some(0x6F1D2B61_D5A0_11CF_BFC7_444553540000u128) ==> kind is Keyboard,
        guid == Some(0x6F1D2B60_D5A0_11CF_BFC7_444553540000u128) ==> kind is Mouse,
        guid != Some(0x6F1D2B61_D5A0_11CF_BFC7_444553540000u128) && guid != Some(
            0x6F1D2B60_D5A0_11CF_BFC7_444553540000u128,
        ) ==> exists|answer: Option<(i32, u32)>| #[trigger]
            call_ensures(caps, (), answer) && (answer is None ==> kind is Other) && (
            answer is Some && (answer->0).0 < 0 ==> kind is Other) && (answer is Some && (
            answer->0).0 >= 0 ==> (kind is Mouse <==> ((answer->0).1 % 256 == 2 || (answer->0).1
                % 256 == 18)) && (kind is Keyboard <==> ((answer->0).1 % 256 == 3 || (answer->0).1
                % 256 == 19))),
{
    if guid != Some(GUID_SYS_KEYBOARD) && guid != Some(GUID_SYS_MOUSE) {
        let answer = choose|answer: Option<(i32, u32)>| #[trigger]
            call_ensures(caps, (), answer) && kind == match answer {
                Some((hr, dev_type)) if hr >= 0 => reported_kind(dev_type),
                _ => DiDeviceKind::Other,
            };
        assert(call_ensures(caps, (), answer));
        if answer is Some {
            let dev_type = (answer->0).1;
            assert(dev_type & 0xFF == dev_type % 256) by (bit_vector);
        }
    }
}

/// At first nothing is detoured and known, and no key is down.
pub proof fn law_input_starts_empty(input: DirectInput, key: int, device: usize)
    requires
        call_ensures(DirectInput::new, (), input),
        0 <= key < 256,
    ensures
        input.create@.len() == 0 && input.state@.len() == 0 && input.data@.len() == 0,
        !input.devices@.contains_key(device),
        input.shadow@[key] == 0,
        !input.chord,
{
}

/// An interface has its creation of devices detoured only if it was created.
pub proof fn law_failed_interface_is_left_alone<F: FnOnce(usize) -> Option<usize>>(
    hooks: &mut Vec<Detour>,
    hr: i32,
    create_device: Option<usize>,
    attach: F,
)
    requires
        call_ensures(after_create::<F>, (hooks, hr, create_device, attach), ()),
    ensures
        hr < 0 || create_device is None ==> final(hooks)@ == old(hooks)@,
        hr >= 0 && create_device is Some && (exists|i: int|
            0 <= i < old(hooks)@.len() && (#[trigger] old(hooks)@[i]).address
                == create_device->0) ==> final(hooks)@ == old(hooks)@,
        hr >= 0 && create_device is Some && (forall|i: int|
            0 <= i < old(hooks)@.len() ==> (#[trigger] old(hooks)@[i]).address
                != create_device->0) ==> exists|found: Option<usize>| #[trigger]
            call_ensures(attach, (create_device->0,), found) && final(hooks)@ == (if found is Some {
                old(hooks)@.push(Detour { address: create_device->0, original: found->0 })
            } else {
                old(hooks)@
            }),
{
    if hr >= 0 && create_device is Some {
        lemma_detoured(old(hooks)@, create_device->0);
        let found = choose|found: Option<usize>| #[trigger]
            attached(old(hooks)@, create_device->0, attach, final(hooks)@, found);
        assert(attached(old(hooks)@, create_device->0, attach, final(hooks)@, found));
        if detoured(old(hooks)@, create_device->0) is None {
            assert(call_ensures(attach, (create_device->0,), found));
        }
    }
}

/// A device is created by the real function behind the interface's own, else by
/// the first that was detoured; without a detour the answer is 0x80004001.
pub proof fn law_devices_are_created_by_their_interface<F: FnOnce(usize) -> i32>(
    hooks: Vec<Detour>,
    address: Option<usize>,
    call: F,
    hr: i32,
    own: Option<usize>,
    found: Option<usize>,
)
    requires
        call_ensures(create_device, (&hooks, address, call), hr),
        call_ensures(find_creator, (&hooks, address), found),
        address is Some ==> call_ensures(find_detour, (&hooks, address->0), own),
        address is None ==> own is None,
    ensures
        own is Some ==> found == own,
        own is None && hooks@.len() > 0 ==> found == Some(hooks@[0].original),
        hooks@.len() == 0 ==> found is None,
        found is Some ==> call_ensures(call, (found->0,), hr),
        found is None ==> hr == 0x8000_4001 - 0x1_0000_0000,
{
}

/// A device that has both functions is remembered under its kind with its real
/// functions, if both could be detoured; all other devices stay as they are,
/// and so does what is known of the keyboard.
pub proof fn law_device_is_remembered_with_its_functions<
    F: FnOnce(usize) -> Option<usize>,
    G: FnOnce(usize) -> Option<usize>,
>(
    input: &mut DirectInput,
    device: usize,
    kind: DiDeviceKind,
    get_state: Option<usize>,
    get_data: Option<usize>,
    attach_state: F,
    attach_data: G,
    other: usize,
)
    requires
        call_ensures(
            DirectInput::hook_device::<F, G>,
            (input, device, kind, get_state, get_data, attach_state, attach_data),
            (),
        ),
    ensures
        final(input).create == old(input).create && final(input).shadow == old(input).shadow
            && final(input).chord == old(input).chord,
        other != device ==> final(input).devices@.get(other) == old(input).devices@.get(other),
        get_state is None || get_data is None ==> final(input).devices@ == old(input).devices@
            && final(input).state@ == old(input).state@ && final(input).data@ == old(input).data@,
        get_state is Some && get_data is Some ==> exists|
            state_fn: Option<usize>,
            data_fn: Option<usize>,
        |
            #![trigger recorded(old(input).devices@, device, kind, state_fn, data_fn)]
            (state_fn is Some && data_fn is Some ==> final(input).devices@.get(device) == Some(
                DeviceRec { kind, get_state: state_fn->0, get_data: data_fn->0 },
            )) && (state_fn is None || data_fn is None ==> final(input).devices@ == old(input).devices@) && attached(
                old(input).state@,
                get_state->0,
                attach_state,
                final(input).state@,
                state_fn,
            ) && attached(
                old(input).data@,
                get_data->0,
                attach_data,
                final(input).data@,
                data_fn,
            ),
{
    if get_state is Some && get_data is Some {
        let (state_fn, data_fn) = choose|state_fn: Option<usize>, data_fn: Option<usize>|
            #![trigger recorded(old(input).devices@, device, kind, state_fn, data_fn)]
            attached(
                old(input).state@,
                get_state->0,
                attach_state,
                final(input).state@,
                state_fn,
            ) && attached(
                old(input).data@,
                get_data->0,
                attach_data,
                final(input).data@,
                data_fn,
            ) && final(input).devices@ == recorded(
                old(input).devices@,
                device,
                kind,
                state_fn,
                data_fn,
            );
        let known = recorded(old(input).devices@, device, kind, state_fn, data_fn);
        assert(known == final(input).devices@);
    }
}

/// A remembered device is what it is remembered as; another is a keyboard if
/// its state has 256 bytes, and a mouse if it has 16 or 20.
pub proof fn law_unknown_devices_are_told_by_size(
    input: DirectInput,
    device: usize,
    cb: u32,
    kind: DiDeviceKind,
)
    requires
        call_ensures(DirectInput::infer_state_kind, (&input, device, cb), kind),
    ensures
        input.devices@.contains_key(device) ==> kind == input.devices@[device].kind,
        !input.devices@.contains_key(device) ==> (kind is Keyboard <==> cb == 256) && (kind is Mouse
            <==> (cb == 16 || cb == 20)),
{
}

/// A device is read by its own real functions, the state by the one and the
/// events by the other; an unknown one by the first of each. Without one nothing
/// is read, successfully.
pub proof fn law_devices_are_read_by_their_own_functions<
    F: FnOnce(usize) -> i32,
    G: FnOnce(usize) -> i32,
>(input: DirectInput, device: usize, state: F, state_hr: i32, data: G, data_hr: i32)
    requires
        call_ensures(DirectInput::call_original_state, (&input, device, state), state_hr),
        call_ensures(DirectInput::call_original_data, (&input, device, data), data_hr),
    ensures
        input.devices@.contains_key(device) ==> call_ensures(
            state,
            (input.devices@[device].get_state,),
            state_hr,
        ) && call_ensures(data, (input.devices@[device].get_data,), data_hr),
        !input.devices@.contains_key(device) && input.state@.len() > 0 ==> call_ensures(
            state,
            (input.state@[0].original,),
            state_hr,
        ),
        !input.devices@.contains_key(device) && input.data@.len() > 0 ==> call_ensures(
            data,
            (input.data@[0].original,),
            data_hr,
        ),
        !input.devices@.contains_key(device) && input.state@.len() == 0 ==> state_hr == 0,
        !input.devices@.contains_key(device) && input.data@.len() == 0 ==> data_hr == 0,
{
}

/// What a report shows of the chord is remembered; it is told to clients only
/// when it was not shown before.
pub proof fn law_chord_is_remembered(
    input: &mut DirectInput,
    hotkey: DiHotkey,
    backends: Backends,
    sink: &mut OverlayEventSink,
    out: Vec<Delivery>,
)
    requires
        call_ensures(DirectInput::note_hotkey, (input, hotkey, &backends, sink), out),
    ensures
        final(input).chord <==> !(hotkey is Nothing),
        final(input).shadow == old(input).shadow && final(input).devices == old(input).devices,
        final(input).state == old(input).state && final(input).data == old(input).data
            && final(input).create == old(input).create,
        hotkey is Nothing || old(input).chord ==> out@.len() == 0 && final(sink)@ == old(sink)@,
        !(hotkey is Nothing) && !old(input).chord ==> crate::hook::hotkey::reported(
            backends@,
            old(sink)@,
            final(sink)@,
            out@,
        ),
{
}

/// A state that could not be read is left alone, and nothing is told. One that
/// was read loses everything while input is blocked anywhere, if its device is
/// a keyboard or a mouse; a keyboard that shows the chord is remembered to.
pub proof fn law_read_state_is_what_the_game_sees(
    input: &mut DirectInput,
    device: usize,
    hr: i32,
    buf: &mut [u8],
    backends: Backends,
    sink: &mut OverlayEventSink,
    out: Vec<Delivery>,
    kind: DiDeviceKind,
    any: bool,
    held: bool,
    i: int,
)
    requires
        call_ensures(
            DirectInput::after_get_state,
            (input, device, hr, buf, &backends, sink),
            out,
        ),
        buf@.len() <= u32::MAX,
        call_ensures(DirectInput::infer_state_kind, (&*input, device, buf@.len() as u32), kind),
        call_ensures(Backends::any_blocking, (&backends,), any),
        call_ensures(chord, (&*buf,), held),
        0 <= i < buf@.len(),
    ensures
        hr < 0 ==> *final(input) == *old(input) && final(buf)@ == old(buf)@ && final(sink)@ == old(sink)@ && out@.len() == 0,
        hr >= 0 && any && !(kind is Other) ==> final(buf)@[i] == 0,
        hr >= 0 && kind is Other ==> final(buf)@[i] == old(buf)@[i],
        hr >= 0 && !any && i != 15 ==> final(buf)@[i] == old(buf)@[i],
        hr >= 0 && !any && kind is Keyboard && held ==> final(buf)@[15] == 0,
        hr >= 0 ==> (final(input).chord <==> (kind is Keyboard && held)),
        hr >= 0 ==> final(input).shadow == old(input).shadow && final(input).devices == old(input).devices,
        hr >= 0 && (old(input).chord || !final(input).chord) ==> out@.len() == 0,
        hr >= 0 && final(input).chord && !old(input).chord ==> crate::hook::hotkey::reported(
            backends@,
            old(sink)@,
            final(sink)@,
            out@,
        ),
{
}

/// Events that could not be read, that were not counted, or that come from a
/// device that is neither keyboard nor mouse, stay as they are with their count.
/// Without room for them only the count of a mouse is hidden while input is
/// blocked; with room every count is, and every value.
pub proof fn law_read_events_are_what_the_game_sees(
    input: &mut DirectInput,
    device: usize,
    hr: i32,
    count: Option<u32>,
    readable: bool,
    cb: u32,
    events: &mut Vec<DiObjectData>,
    backends: Backends,
    sink: &mut OverlayEventSink,
    outcome: (Vec<Delivery>, Option<u32>),
    any: bool,
    i: int,
)
    requires
        call_ensures(
            DirectInput::after_get_data,
            (input, device, hr, count, readable, cb, events, &backends, sink),
            outcome,
        ),
        call_ensures(Backends::any_blocking, (&backends,), any),
        0 <= i < events@.len(),
    ensures
        final(events)@.len() == old(events)@.len(),
        final(events)@[i].dw_ofs == old(events)@[i].dw_ofs,
        ({
            let known = old(input).devices@.get(device);
            let kind = if known is Some {
                known->0.kind
            } else {
                DiDeviceKind::Other
            };
            let room = readable && cb >= 8 && count != Some(0u32);
            &&& hr < 0 || count is None || kind is Other ==> outcome.1 == count && final(events)@
                == old(events)@ && *final(input) == *old(input) && outcome.0@.len() == 0
            &&& hr >= 0 && count is Some && !(kind is Other) && !room ==> final(events)@ == old(events)@ && *final(input) == *old(input) && outcome.1 == (if any && kind is Mouse {
                Some(0u32)
            } else {
                count
            })
            &&& hr >= 0 && count is Some && !(kind is Other) && room ==> outcome.1 == (if any {
                Some(0u32)
            } else {
                count
            }) && (any ==> final(events)@[i].dw_data == 0) && (!any && (kind is Mouse || old(events)@[i].dw_ofs != 15) ==> final(events)@[i] == old(events)@[i])
            &&& hr >= 0 && count is Some && kind is Mouse && room ==> !final(input).chord && final(input).shadow@ == old(input).shadow@
            &&& hr >= 0 && count is Some && kind is Keyboard && room ==> final(input).shadow@
                == remembered(DiDeviceKind::Keyboard, old(input).shadow@, old(events)@) && (final(input).chord <==> events_hotkey(
                DiDeviceKind::Keyboard,
                old(input).shadow@,
                old(events)@,
            ) is Buffered)
        }),
        final(input).devices == old(input).devices && final(input).state == old(input).state
            && final(input).data == old(input).data && final(input).create == old(input).create,
{
}

} // verus!
