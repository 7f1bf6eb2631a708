//! GameInput readings of the game.
//!
//! The game's interface is the real one. While the overlay is interactive the
//! game gets no readings of the keyboard, the mouse and pads; it never gets one
//! that shows Shift and Tab, which call up the overlay.

use crate::backend::Backends;
use crate::event_sink::{Delivery, OverlayEventSink};
use crate::hook::combase::E_FAIL;
use crate::hook::hotkey::emit_shift_tab;
use vstd::prelude::*;

verus! {

pub const KIND_KEYBOARD: u32 = 0x0000_0010;

pub const KIND_MOUSE: u32 = 0x0000_0020;

pub const KIND_CONTROLLER: u32 = 0x0000_000E;

pub const KIND_GAMEPAD: u32 = 0x0004_0000;

pub const VK_TAB: u8 = 0x09;

pub const VK_SHIFT: u8 = 0x10;

pub const VK_LSHIFT: u8 = 0xA0;

pub const VK_RSHIFT: u8 = 0xA1;

pub const IID_V10: u128 = 0x11BE2A7E_4254_445A_9C09_FFC40F006918;

pub const IID_V11: u128 = 0x40FFB7E4_6150_407A_B439_132BADC08D2D;

pub const IID_V20: u128 = 0xBBAA66D2_837A_40F7_A303_917D500955F4;

pub const IID_V30: u128 = 0x20EFC1C7_5D9A_43BA_B26F_B807FA48609C;

/// The most keys that are read from a reading.
pub const MAX_KEYS: u32 = 16;

/// What a reading is of.
#[derive(Debug, Clone, Copy, PartialEq, Eq, Structural)]
pub enum GiKind {
    Keyboard,
    Mouse,
    Gamepad,
    Other,
}

/// Whether a reading shows Shift and Tab.
#[derive(Debug, Clone, Copy, PartialEq, Eq, Structural)]
pub enum GiHotkey {
    Nothing,
    Chord,
}

/// What was seen in a reading, and whether it is kept from the game.
#[derive(Debug, Clone, Copy, PartialEq, Eq, Structural)]
pub struct GiOutcome {
    pub hotkey: GiHotkey,
    pub consume: bool,
}

/// Where the functions that tell keys stand in the table of a reading.
#[derive(Debug, Clone, Copy, PartialEq, Eq, Structural)]
pub enum KeyLayout {
    V0,
    V1,
}

/// What a reading is of, by its bits.
pub open spec fn classified(kind_bits: u32) -> GiKind {
    if kind_bits & KIND_KEYBOARD != 0 {
        GiKind::Keyboard
    } else if kind_bits & KIND_MOUSE != 0 {
        GiKind::Mouse
    } else if kind_bits & KIND_GAMEPAD != 0 || kind_bits & KIND_CONTROLLER != 0 {
        GiKind::Gamepad
    } else {
        GiKind::Other
    }
}

/// Tells what a reading is of, by its bits.
pub fn classify_kind(kind_bits: u32) -> (kind: GiKind)
    ensures
        kind == classified(kind_bits),
{
    if kind_bits & KIND_KEYBOARD != 0 {
        GiKind::Keyboard
    } else if kind_bits & KIND_MOUSE != 0 {
        GiKind::Mouse
    } else if kind_bits & KIND_GAMEPAD != 0 || kind_bits & KIND_CONTROLLER != 0 {
        GiKind::Gamepad
    } else {
        GiKind::Other
    }
}

/// Whether one of the Shift keys is among keys that are down.
pub open spec fn shifted(keys: Seq<u8>) -> bool {
    keys.contains(VK_SHIFT) || keys.contains(VK_LSHIFT) || keys.contains(VK_RSHIFT)
}

/// Whether a key is among those that are down.
fn holds(keys: &[u8], key: u8) -> (held: bool)
    ensures
        held == keys@.contains(key),
{
    let mut i: usize = 0;
    while i < keys.len()
        invariant
            i <= keys@.len(),
            forall|k: int| 0 <= k < i ==> keys@[k] != key,
        decreases keys@.len() - i,
    {
        if keys[i] == key {
            assert(keys@[i as int] == key);
            return true;
        }
        i += 1;
    }
    false
}

/// Whether one of the Shift keys is among keys that are down.
pub fn shift_down(keys: &[u8]) -> (is_down: bool)
    ensures
        is_down == shifted(keys@),
{
    holds(keys, VK_SHIFT) || holds(keys, VK_LSHIFT) || holds(keys, VK_RSHIFT)
}

/// Whether a reading shows Shift and Tab.
pub open spec fn chorded(kind: GiKind, keys: Seq<u8>) -> bool {
    kind == GiKind::Keyboard && shifted(keys) && keys.contains(VK_TAB)
}

/// What is seen in a reading, and whether it is kept from the game.
pub open spec fn applied(kind: GiKind, keys: Seq<u8>, interactive: bool) -> GiOutcome {
    GiOutcome {
        hotkey: if chorded(kind, keys) {
            GiHotkey::Chord
        } else {
            GiHotkey::Nothing
        },
        consume: match kind {
            GiKind::Other => false,
            GiKind::Keyboard => interactive || chorded(kind, keys),
            GiKind::Mouse | GiKind::Gamepad => interactive,
        },
    }
}

/// Looks for Shift and Tab in a reading, and tells whether it is kept from the
/// game.
pub fn apply_reading(kind: GiKind, keys: &[u8], interactive: bool) -> (outcome: GiOutcome)
    ensures
        outcome == applied(kind, keys@, interactive),
{
    let hotkey = if kind == GiKind::Keyboard && shift_down(keys) && holds(keys, VK_TAB) {
        GiHotkey::Chord
    } else {
        GiHotkey::Nothing
    };
    let consume = match kind {
        GiKind::Other => false,
        GiKind::Keyboard => interactive || hotkey == GiHotkey::Chord,
        GiKind::Mouse | GiKind::Gamepad => interactive,
    };
    GiOutcome { hotkey, consume }
}

/// Notes whether a reading of the keyboard shows Shift and Tab, and tells
/// whether they are newly held. Other readings tell nothing of them.
pub fn note_hotkey_kind(kind: GiKind, hotkey: GiHotkey, chord: &mut bool) -> (newly: bool)
    ensures
        *final(chord) == if kind == GiKind::Keyboard {
            hotkey != GiHotkey::Nothing
        } else {
            *old(chord)
        },
        newly == (kind == GiKind::Keyboard && crate::hook::hotkey::rises(
            *old(chord),
            hotkey != GiHotkey::Nothing,
        )),
{
    if kind != GiKind::Keyboard {
        return false;
    }
    let held = hotkey != GiHotkey::Nothing;
    let was = *chord;
    *chord = held;
    held && !was
}

/// The places of the functions that tell the number of keys, and the keys, in
/// the table of a reading.
pub fn key_slots(layout: KeyLayout) -> (slots: (usize, usize))
    ensures
        slots == match layout {
            KeyLayout::V0 => (14usize, 15usize),
            KeyLayout::V1 => (12usize, 13usize),
        },
{
    match layout {
        KeyLayout::V0 => (14, 15),
        KeyLayout::V1 => (12, 13),
    }
}

/// The smaller of two numbers.
pub open spec fn smaller(a: u32, b: u32) -> u32 {
    if a < b {
        a
    } else {
        b
    }
}

/// The keys that are down in a reading of `count` keys, of which only so many
/// are read. `read` reads as many as it is told, and tells how many it got and
/// what stands in the places for them.
pub fn keys_from_reading(count: u32, read: impl FnOnce(u32) -> (u32, Vec<u8>)) -> (keys: Vec<u8>)
    requires
        count != 0 ==> call_requires(read, (smaller(count, MAX_KEYS),)),
        count != 0 ==> forall|got: (u32, Vec<u8>)| #[trigger]
            call_ensures(read, (smaller(count, MAX_KEYS),), got) ==> got.1@.len() == smaller(
                count,
                MAX_KEYS,
            ),
    ensures
        count == 0 ==> keys@.len() == 0,
        count != 0 ==> exists|got: (u32, Vec<u8>)| #[trigger]
            call_ensures(read, (smaller(count, MAX_KEYS),), got) && keys@ == got.1@.take(
                smaller(got.0, smaller(count, MAX_KEYS)) as int,
            ),
{
    let count: u32 = if count < MAX_KEYS {
        count
    } else {
        MAX_KEYS
    };
    if count == 0 {
        return Vec::new();
    }
    let got = read(count);
    assert(call_ensures(read, (count,), got));
    let n: u32 = if got.0 < count {
        got.0
    } else {
        count
    };
    let mut keys = got.1;
    keys.truncate(n as usize);
    keys
}

/// What came of a reading: the answer, whether the reading was released and
/// taken from the game, and what clients are told.
pub struct Finished {
    pub answer: i32,
    pub taken: bool,
    pub told: Vec<Delivery>,
}

/// Whether a reading that answered `hr` is finished as `finished` with the keys
/// `keys` in it.
pub open spec fn finishes(
    kind: GiKind,
    keys: Seq<u8>,
    interactive: bool,
    hr: i32,
    was_held: bool,
    held: bool,
    finished: Finished,
) -> bool {
    let outcome = applied(kind, keys, interactive);
    &&& finished.taken == outcome.consume
    &&& finished.answer == if outcome.consume {
        E_FAIL
    } else {
        hr
    }
    &&& held == if kind == GiKind::Keyboard {
        chorded(kind, keys)
    } else {
        was_held
    }
}

/// Finishes a reading that the real function answered with `hr`; `got` tells
/// whether there is a reading. Keys are read of the keyboard only.
pub fn finish_reading(
    kind_bits: u32,
    got: bool,
    hr: i32,
    keys: impl FnOnce() -> Vec<u8>,
    chord: &mut bool,
    backends: &Backends,
    sink: &mut OverlayEventSink,
) -> (finished: Finished)
    requires
        hr >= 0 && got && classified(kind_bits) == GiKind::Keyboard ==> call_requires(keys, ()),
    ensures
        hr < 0 || !got ==> finished.answer == hr && !finished.taken && finished.told@.len() == 0
            && *final(chord) == *old(chord) && final(sink)@ == old(sink)@,
        hr >= 0 && got && classified(kind_bits) != GiKind::Keyboard ==> finishes(
            classified(kind_bits),
            Seq::empty(),
            crate::backend::any_blocked(backends@),
            hr,
            *old(chord),
            *final(chord),
            finished,
        ) && finished.told@.len() == 0 && final(sink)@ == old(sink)@,
        hr >= 0 && got && classified(kind_bits) == GiKind::Keyboard ==> exists|read: Vec<u8>|
            #[trigger]
            call_ensures(keys, (), read) && finishes(
                GiKind::Keyboard,
                read@,
                crate::backend::any_blocked(backends@),
                hr,
                *old(chord),
                *final(chord),
                finished,
            ) && if crate::hook::hotkey::rises(*old(chord), *final(chord)) {
                crate::hook::hotkey::reported(backends@, old(sink)@, final(sink)@, finished.told@)
            } else {
                finished.told@.len() == 0 && final(sink)@ == old(sink)@
            },
{
    if hr < 0 || !got {
        return Finished { answer: hr, taken: false, told: Vec::new() };
    }
    let kind = classify_kind(kind_bits);
    let read: Vec<u8> = if kind == GiKind::Keyboard {
        let read = keys();
        assert(call_ensures(keys, (), read));
        read
    } else {
        let read: Vec<u8> = Vec::new();
        assert(read@ =~= Seq::empty());
        read
    };
    let outcome = apply_reading(kind, read.as_slice(), backends.any_blocking());
    let told = if note_hotkey_kind(kind, outcome.hotkey, chord) {
        emit_shift_tab(backends, sink)
    } else {
        Vec::new()
    };
    if outcome.consume {
        Finished { answer: E_FAIL, taken: true, told }
    } else {
        Finished { answer: hr, taken: false, told }
    }
}

/// The functions of an interface that give readings.
#[derive(Debug, Clone, Copy, PartialEq, Eq, Structural)]
pub enum Walk {
    Current,
    Next,
    Prev,
}

/// The functions that give readings in the table of an interface, if it has
/// one.
#[derive(Debug, Clone, Copy, PartialEq, Eq, Structural)]
pub struct Slots {
    pub current: usize,
    pub next: usize,
    pub prev: usize,
}

/// A detoured function that gives readings.
#[derive(Debug, Clone, Copy, PartialEq, Eq, Structural)]
pub struct ReadingHook {
    pub address: usize,
    pub layout: KeyLayout,
    pub original: usize,
}

/// The detoured functions that give readings.
pub struct ReadingHookSet {
    pub current: Vec<ReadingHook>,
    pub next: Vec<ReadingHook>,
    pub prev: Vec<ReadingHook>,
}

/// Whether a function is detoured at an address.
pub open spec fn detours(hooks: Seq<ReadingHook>, address: usize) -> bool {
    exists|i: int| 0 <= i < hooks.len() && (#[trigger] hooks[i]).address == address
}

/// The first detour at an address.
pub open spec fn detour_at(hooks: Seq<ReadingHook>, address: usize) -> Option<ReadingHook>
    decreases hooks.len(),
{
    if hooks.len() == 0 {
        None
    } else if hooks.first().address == address {
        Some(hooks.first())
    } else {
        detour_at(hooks.drop_first(), address)
    }
}

/// The real function behind an interface's own: that of the detour at its
/// address, else that of the first detour.
pub open spec fn looked_up(hooks: Seq<ReadingHook>, address: Option<usize>) -> Option<ReadingHook> {
    let own = match address {
        Some(address) => detour_at(hooks, address),
        None => None,
    };
    if own is Some {
        own
    } else if hooks.len() > 0 {
        Some(hooks[0])
    } else {
        None
    }
}

/// Finds the first detour at an address.
fn find_at(hooks: &Vec<ReadingHook>, address: usize) -> (found: Option<ReadingHook>)
    ensures
        found == detour_at(hooks@, address),
        found is Some <==> detours(hooks@, address),
{
    let mut i: usize = 0;
    assert(hooks@.skip(0) =~= hooks@);
    while i < hooks.len()
        invariant
            i <= hooks@.len(),
            detour_at(hooks@, address) == detour_at(hooks@.skip(i as int), address),
            forall|k: int| 0 <= k < i ==> (#[trigger] hooks@[k]).address != address,
        decreases hooks@.len() - i,
    {
        assert(hooks@.skip(i as int).drop_first() =~= hooks@.skip(i + 1));
        if hooks[i].address == address {
            return Some(hooks[i]);
        }
        i += 1;
    }
    None
}

/// Finds the real function behind an interface's own, and how its readings are
/// laid out.
pub fn lookup_walk(hooks: &Vec<ReadingHook>, address: Option<usize>) -> (found: Option<
    (usize, KeyLayout),
>)
    ensures
        found == match looked_up(hooks@, address) {
            Some(hook) => Some((hook.original, hook.layout)),
            None => None,
        },
{
    if let Some(address) = address {
        if let Some(hook) = find_at(hooks, address) {
            return Some((hook.original, hook.layout));
        }
    }
    if hooks.len() > 0 {
        Some((hooks[0].original, hooks[0].layout))
    } else {
        None
    }
}

/// Whether `after` are the detours once the function at `address` is detoured,
/// unless it already is. Detouring may fail.
pub open spec fn walk_attached<F: Fn(Walk, usize) -> Option<usize>>(
    before: Seq<ReadingHook>,
    walk: Walk,
    address: usize,
    layout: KeyLayout,
    attach: F,
    after: Seq<ReadingHook>,
) -> bool {
    if detours(before, address) {
        after == before
    } else {
        exists|made: Option<usize>| #[trigger]
            call_ensures(attach, (walk, address), made) && after == match made {
                Some(original) => before.push(ReadingHook { address, layout, original }),
                None => before,
            }
    }
}

/// Detours a function that gives readings, unless it already is.
fn attach_walk<F: Fn(Walk, usize) -> Option<usize>>(
    hooks: &mut Vec<ReadingHook>,
    walk: Walk,
    address: usize,
    layout: KeyLayout,
    attach: &F,
)
    requires
        !detours(old(hooks)@, address) ==> call_requires(*attach, (walk, address)),
    ensures
        walk_attached(old(hooks)@, walk, address, layout, *attach, final(hooks)@),
{
    if find_at(hooks, address).is_some() {
        return ;
    }
    let made = attach(walk, address);
    assert(call_ensures(*attach, (walk, address), made));
    if let Some(original) = made {
        hooks.push(ReadingHook { address, layout, original });
    }
}

/// What is detoured of the functions that give readings.
pub ghost struct ReadingSet {
    pub current: Seq<ReadingHook>,
    pub next: Seq<ReadingHook>,
    pub prev: Seq<ReadingHook>,
}

impl View for ReadingHookSet {
    type V = ReadingSet;

    open spec fn view(&self) -> ReadingSet {
        ReadingSet { current: self.current@, next: self.next@, prev: self.prev@ }
    }
}

impl ReadingSet {
    /// What is detoured of one of the functions.
    pub open spec fn of(self, walk: Walk) -> Seq<ReadingHook> {
        match walk {
            Walk::Current => self.current,
            Walk::Next => self.next,
            Walk::Prev => self.prev,
        }
    }
}

impl Slots {
    /// Where one of the functions is.
    pub open spec fn at(self, walk: Walk) -> usize {
        match walk {
            Walk::Current => self.current,
            Walk::Next => self.next,
            Walk::Prev => self.prev,
        }
    }
}

/// Whether the functions of an interface that are not detoured yet can be.
pub open spec fn may_attach<F: Fn(Walk, usize) -> Option<usize>>(
    attach: F,
    before: ReadingSet,
    slots: Option<Slots>,
) -> bool {
    slots matches Some(slots) ==> forall|walk: Walk|
        !detours(before.of(walk), #[trigger] slots.at(walk)) ==> call_requires(
            attach,
            (walk, slots.at(walk)),
        )
}

/// Whether everything that is detoured in `before` is in `after`.
pub open spec fn kept(before: ReadingSet, after: ReadingSet) -> bool {
    forall|walk: Walk, address: usize| #[trigger]
        detours(before.of(walk), address) ==> detours(after.of(walk), address)
}

/// One more detour leaves those before it.
proof fn lemma_walk_kept<F: Fn(Walk, usize) -> Option<usize>>(
    before: Seq<ReadingHook>,
    walk: Walk,
    at: usize,
    layout: KeyLayout,
    attach: F,
    after: Seq<ReadingHook>,
)
    requires
        walk_attached(before, walk, at, layout, attach, after),
    ensures
        forall|address: usize| #[trigger] detours(before, address) ==> detours(after, address),
{
    assert forall|address: usize| #[trigger] detours(before, address) implies detours(
        after,
        address,
    ) by {
        let i = choose|i: int| 0 <= i < before.len() && (#[trigger] before[i]).address == address;
        assert(after[i] == before[i]);
    }
}

/// Detouring an interface leaves what was detoured before.
proof fn lemma_readings_kept<F: Fn(Walk, usize) -> Option<usize>>(
    before: ReadingSet,
    slots: Option<Slots>,
    layout: KeyLayout,
    attach: F,
    after: ReadingSet,
)
    requires
        readings_attached(before, slots, layout, attach, after),
    ensures
        kept(before, after),
{
    if let Some(slots) = slots {
        lemma_walk_kept(
            before.current,
            Walk::Current,
            slots.current,
            layout,
            attach,
            after.current,
        );
        lemma_walk_kept(before.next, Walk::Next, slots.next, layout, attach, after.next);
        lemma_walk_kept(before.prev, Walk::Prev, slots.prev, layout, attach, after.prev);
    }
}

/// Whether `after` is what is detoured once the functions of an interface are;
/// an interface without a table is left alone.
pub open spec fn readings_attached<F: Fn(Walk, usize) -> Option<usize>>(
    before: ReadingSet,
    slots: Option<Slots>,
    layout: KeyLayout,
    attach: F,
    after: ReadingSet,
) -> bool {
    match slots {
        None => after == before,
        Some(slots) => {
            &&& walk_attached(
                before.current,
                Walk::Current,
                slots.current,
                layout,
                attach,
                after.current,
            )
            &&& walk_attached(before.next, Walk::Next, slots.next, layout, attach, after.next)
            &&& walk_attached(before.prev, Walk::Prev, slots.prev, layout, attach, after.prev)
        },
    }
}

/// The layout of the readings of a version, the newest version first.
pub open spec fn version_layout(version: int) -> KeyLayout {
    if version == 3 {
        KeyLayout::V0
    } else {
        KeyLayout::V1
    }
}

/// Whether `after` is what is detoured once each version of an interface that
/// answered is detoured. An answer is the table of that version's interface, if
/// it has one.
pub open spec fn versions_attached<F: Fn(Walk, usize) -> Option<usize>>(
    before: ReadingSet,
    answers: Seq<Option<Option<Slots>>>,
    attach: F,
    after: ReadingSet,
) -> bool
    decreases answers.len(),
{
    if answers.len() == 0 {
        after == before
    } else {
        exists|between: ReadingSet| #[trigger]
            version_attached(
                between,
                answers.last(),
                version_layout(answers.len() - 1),
                attach,
                after,
            ) && versions_attached(before, answers.drop_last(), attach, between)
    }
}

/// Whether `after` is what is detoured once one version of an interface is
/// detoured, if it answered.
pub open spec fn version_attached<F: Fn(Walk, usize) -> Option<usize>>(
    before: ReadingSet,
    answer: Option<Option<Slots>>,
    layout: KeyLayout,
    attach: F,
    after: ReadingSet,
) -> bool {
    match answer {
        None => after == before,
        Some(slots) => readings_attached(before, slots, layout, attach, after),
    }
}

/// Whether one of the versions of an interface answered.
pub open spec fn any_answer(answers: Seq<Option<Option<Slots>>>) -> bool {
    exists|i: int| 0 <= i < answers.len() && (#[trigger] answers[i]) is Some
}

/// The names of the versions, the newest first, with the layout of their
/// readings.
pub open spec fn known_versions() -> Seq<(u128, KeyLayout)> {
    seq![
        (IID_V30, KeyLayout::V1),
        (IID_V20, KeyLayout::V1),
        (IID_V11, KeyLayout::V1),
        (IID_V10, KeyLayout::V0),
    ]
}

/// The versions of the interface that are asked for, the newest first.
pub fn versions() -> (all: Vec<(u128, KeyLayout)>)
    ensures
        all@ == known_versions(),
{
    let all = vec![
        (IID_V30, KeyLayout::V1),
        (IID_V20, KeyLayout::V1),
        (IID_V11, KeyLayout::V1),
        (IID_V10, KeyLayout::V0),
    ];
    assert(all@ =~= known_versions());
    all
}

/// The layout of the readings of a version that is known by its name.
pub open spec fn named_layout(iid: u128) -> Option<KeyLayout> {
    if iid == IID_V30 || iid == IID_V20 || iid == IID_V11 {
        Some(KeyLayout::V1)
    } else if iid == IID_V10 {
        Some(KeyLayout::V0)
    } else {
        None
    }
}

/// The version with a name, and the layout of its readings.
pub fn version_of(iid: u128) -> (version: Option<(&'static str, KeyLayout)>)
    ensures
        version is Some <==> named_layout(iid) is Some,
        version matches Some((label, layout)) ==> Some(layout) == named_layout(iid) && label@ == (
        if iid == IID_V30 {
            "v3.0"@
        } else if iid == IID_V20 {
            "v2.0"@
        } else if iid == IID_V11 {
            "v1.1"@
        } else {
            "v1.0"@
        }),
{
    if iid == IID_V30 {
        Some(("v3.0", KeyLayout::V1))
    } else if iid == IID_V20 {
        Some(("v2.0", KeyLayout::V1))
    } else if iid == IID_V11 {
        Some(("v1.1", KeyLayout::V1))
    } else if iid == IID_V10 {
        Some(("v1.0", KeyLayout::V0))
    } else {
        None
    }
}

impl ReadingHookSet {
    /// Nothing is detoured.
    pub fn new() -> (set: ReadingHookSet)
        ensures
            set.current@.len() == 0,
            set.next@.len() == 0,
            set.prev@.len() == 0,
    {
        ReadingHookSet { current: Vec::new(), next: Vec::new(), prev: Vec::new() }
    }

    /// Detours the functions of an interface that give readings.
    pub fn attach_readings<F: Fn(Walk, usize) -> Option<usize>>(
        &mut self,
        slots: Option<Slots>,
        layout: KeyLayout,
        attach: &F,
    )
        requires
            may_attach(*attach, old(self)@, slots),
        ensures
            readings_attached(old(self)@, slots, layout, *attach, final(self)@),
    {
        if let Some(slots) = slots {
            assert(slots.at(Walk::Current) == slots.current);
            assert(slots.at(Walk::Next) == slots.next);
            assert(slots.at(Walk::Prev) == slots.prev);
            attach_walk(&mut self.current, Walk::Current, slots.current, layout, attach);
            attach_walk(&mut self.next, Walk::Next, slots.next, layout, attach);
            attach_walk(&mut self.prev, Walk::Prev, slots.prev, layout, attach);
        }
    }

    /// Detours an interface of unknown version: each version that it answers
    /// for, else itself as one of a later version. `answers` are those of the
    /// versions, the newest first; `own` is the interface's own table.
    pub fn hook_iface<F: Fn(Walk, usize) -> Option<usize>>(
        &mut self,
        own: Option<Slots>,
        answers: &Vec<Option<Option<Slots>>>,
        attach: &F,
    )
        requires
            answers@.len() == 4,
            forall|k: int|
                0 <= k < answers@.len() ==> ((#[trigger] answers@[k]) matches Some(slots)
                    ==> may_attach(*attach, old(self)@, slots)),
            !any_answer(answers@) ==> may_attach(*attach, old(self)@, own),
        ensures
            any_answer(answers@) ==> versions_attached(
                old(self)@,
                answers@,
                *attach,
                final(self)@,
            ),
            !any_answer(answers@) ==> readings_attached(
                old(self)@,
                own,
                KeyLayout::V1,
                *attach,
                final(self)@,
            ),
    {
        let ghost before = self@;
        let mut any = false;
        let mut i: usize = 0;
        assert(answers@.take(0) =~= Seq::empty());
        while i < answers.len()
            invariant
                i <= answers@.len(),
                answers@.len() == 4,
                any == any_answer(answers@.take(i as int)),
                !any ==> self@ == before,
                versions_attached(before, answers@.take(i as int), *attach, self@),
                kept(before, self@),
                forall|k: int|
                    0 <= k < answers@.len() ==> ((#[trigger] answers@[k]) matches Some(slots)
                        ==> may_attach(*attach, before, slots)),
            decreases answers@.len() - i,
        {
            let ghost between = self@;
            let ghost taken = answers@.take(i as int);
            if let Some(slots) = answers[i] {
                let layout = if i == 3 {
                    KeyLayout::V0
                } else {
                    KeyLayout::V1
                };
                assert(may_attach(*attach, before, slots));
                self.attach_readings(slots, layout, attach);
                proof {
                    lemma_readings_kept(between, slots, layout, *attach, self@);
                }
                any = true;
                assert(answers@.take(i + 1)[i as int] is Some);
            } else {
                proof {
                    if any {
                        let k = choose|k: int| 0 <= k < taken.len() && (#[trigger] taken[k]) is Some;
                        assert(answers@.take(i + 1)[k] is Some);
                    }
                    assert forall|k: int| 0 <= k <= i && (#[trigger] answers@.take(i + 1)[k]) is Some
                        implies any by {
                        assert(taken[k] is Some);
                    }
                }
            }
            i += 1;
            proof {
                let now = answers@.take(i as int);
                assert(now.drop_last() =~= taken);
                assert(version_attached(
                    between,
                    now.last(),
                    version_layout(now.len() - 1),
                    *attach,
                    self@,
                ));
            }
        }
        assert(answers@.take(i as int) =~= answers@);
        if !any {
            self.attach_readings(own, KeyLayout::V1, attach);
        }
    }

    /// Detours an interface that was asked for by a name.
    pub fn hook_known<F: Fn(Walk, usize) -> Option<usize>>(
        &mut self,
        iid: u128,
        own: Option<Slots>,
        answers: &Vec<Option<Option<Slots>>>,
        attach: &F,
    )
        requires
            answers@.len() == 4,
            named_layout(iid) is Some ==> may_attach(*attach, old(self)@, own),
            named_layout(iid) is None ==> forall|k: int|
                0 <= k < answers@.len() ==> ((#[trigger] answers@[k]) matches Some(slots)
                    ==> may_attach(*attach, old(self)@, slots)),
            named_layout(iid) is None && !any_answer(answers@) ==> may_attach(
                *attach,
                old(self)@,
                own,
            ),
        ensures
            match named_layout(iid) {
                Some(layout) => readings_attached(old(self)@, own, layout, *attach, final(self)@),
                None => if any_answer(answers@) {
                    versions_attached(old(self)@, answers@, *attach, final(self)@)
                } else {
                    readings_attached(old(self)@, own, KeyLayout::V1, *attach, final(self)@)
                },
            },
    {
        match version_of(iid) {
            Some((_, layout)) => self.attach_readings(own, layout, attach),
            None => self.hook_iface(own, answers, attach),
        }
    }

    /// Finds the real function behind an interface's own that gives the current
    /// reading.
    pub fn lookup_current(&self, address: Option<usize>) -> (found: Option<(usize, KeyLayout)>)
        ensures
            found == match looked_up(self.current@, address) {
                Some(hook) => Some((hook.original, hook.layout)),
                None => None,
            },
    {
        lookup_walk(&self.current, address)
    }
}

/// Whether an object that the game created is detoured: it asked for a version
/// of the interface by its name, and got it.
pub fn co_create_hooks(hr: i32, iid: Option<u128>, place: bool) -> (hooks: bool)
    ensures
        hooks == (hr >= 0 && place && iid is Some && named_layout(iid->0) is Some),
{
    if hr < 0 || !place {
        return false;
    }
    match iid {
        Some(iid) => version_of(iid).is_some(),
        None => false,
    }
}

/// The game never gets a reading that shows Shift and Tab, and while the overlay
/// is interactive none of the keyboard, the mouse or a pad.
pub proof fn law_overlay_keeps_its_input(kind: GiKind, keys: Seq<u8>, interactive: bool)
    ensures
        chorded(kind, keys) ==> applied(kind, keys, interactive).consume,
        interactive && kind != GiKind::Other ==> applied(kind, keys, interactive).consume,
        kind == GiKind::Other ==> !applied(kind, keys, interactive).consume,
{
}

/// A reading is of the keyboard by the fifth bit, else of the mouse by the
/// sixth, else of a pad by the second to the fourth or the nineteenth.
pub proof fn law_readings_are_told_by_their_bits(kind_bits: u32, kind: GiKind)
    requires
        call_ensures(classify_kind, (kind_bits,), kind),
    ensures
        kind is Keyboard <==> kind_bits & 0x10 != 0,
        kind is Mouse <==> (kind_bits & 0x20 != 0 && kind_bits & 0x10 == 0),
        kind is Gamepad <==> (kind_bits & 0x4_000E != 0 && kind_bits & 0x30 == 0),
        kind is Other <==> kind_bits & 0x4_003E == 0,
{
    assert((kind_bits & 0x4_000E != 0) == (kind_bits & 0x4_0000 != 0 || kind_bits & 0xE != 0) && (
    kind_bits & 0x30 == 0) == (kind_bits & 0x10 == 0 && kind_bits & 0x20 == 0) && (kind_bits
        & 0x4_003E == 0) == (kind_bits & 0x10 == 0 && kind_bits & 0x20 == 0 && kind_bits & 0x4_0000
        == 0 && kind_bits & 0xE == 0)) by (bit_vector);
}

/// Shift is down exactly if the key 16, 160 or 161 is among those that are.
pub proof fn law_three_keys_are_shift(keys: &[u8], is_down: bool)
    requires
        call_ensures(shift_down, (keys,), is_down),
    ensures
        is_down <==> exists|i: int|
            0 <= i < keys@.len() && (#[trigger] keys@[i] == 16 || keys@[i] == 160 || keys@[i]
                == 161),
{
    if is_down {
        if keys@.contains(16) {
            let i = keys@.index_of(16);
            assert(keys@[i] == 16);
        } else if keys@.contains(160) {
            let i = keys@.index_of(160);
            assert(keys@[i] == 160);
        } else {
            let i = keys@.index_of(161);
            assert(keys@[i] == 161);
        }
    }
}

/// Only a reading of the keyboard shows the chord: Shift with the key 9. The
/// game does not get one that does, and while the overlay is interactive none
/// of the keyboard, the mouse or a pad; it gets all others.
pub proof fn law_readings_are_kept_from_the_game(
    kind: GiKind,
    keys: &[u8],
    interactive: bool,
    outcome: GiOutcome,
    shift: bool,
)
    requires
        call_ensures(apply_reading, (kind, keys, interactive), outcome),
        call_ensures(shift_down, (keys,), shift),
    ensures
        outcome.hotkey is Chord <==> (kind is Keyboard && shift && keys@.contains(9)),
        outcome.consume <==> (outcome.hotkey is Chord || (interactive && !(kind is Other))),
{
}

/// Readings of the keyboard tell whether the chord is held, and it is newly
/// held when it was not before; other readings change and tell nothing.
pub proof fn law_keyboard_tells_of_the_chord(
    kind: GiKind,
    hotkey: GiHotkey,
    chord: &mut bool,
    newly: bool,
)
    requires
        call_ensures(note_hotkey_kind, (kind, hotkey, chord), newly),
    ensures
        !(kind is Keyboard) ==> *final(chord) == *old(chord) && !newly,
        kind is Keyboard ==> (*final(chord) <==> hotkey is Chord),
        newly <==> (*final(chord) && !*old(chord)),
{
}

/// The number of keys and the keys stand at 14 and 15 in the first layout, and
/// at 12 and 13 in the later one.
pub proof fn law_keys_have_their_places(layout: KeyLayout, slots: (usize, usize))
    requires
        call_ensures(key_slots, (layout,), slots),
    ensures
        slots.1 == slots.0 + 1,
        layout is V0 ==> slots.0 == 14,
        layout is V1 ==> slots.0 == 12,
{
}

/// At most sixteen keys are read, no more than there are, and no more count than
/// were got, from the first on. Without keys nothing is read.
pub proof fn law_at_most_sixteen_keys_are_read<F: FnOnce(u32) -> (u32, Vec<u8>)>(
    count: u32,
    read: F,
    keys: Vec<u8>,
)
    requires
        call_ensures(keys_from_reading, (count, read), keys),
        count != 0 ==> forall|got: (u32, Vec<u8>)| #[trigger]
            call_ensures(read, (smaller(count, MAX_KEYS),), got) ==> got.1@.len() == smaller(
                count,
                MAX_KEYS,
            ),
    ensures
        count == 0 ==> keys@.len() == 0,
        keys@.len() <= count && keys@.len() <= 16,
        count != 0 ==> exists|asked: u32, got: (u32, Vec<u8>)| #[trigger]
            call_ensures(read, (asked,), got) && asked <= count && asked <= 16 && (asked == count
                || asked == 16) && keys@.len() <= got.0 && (keys@.len() == got.0 || keys@.len()
                == asked) && (forall|i: int|
                0 <= i < keys@.len() ==> #[trigger] keys@[i] == got.1@[i]),
{
    if count != 0 {
        let got = choose|got: (u32, Vec<u8>)| #[trigger]
            call_ensures(read, (smaller(count, MAX_KEYS),), got) && keys@ == got.1@.take(
                smaller(got.0, smaller(count, MAX_KEYS)) as int,
            );
        assert(call_ensures(read, (smaller(count, MAX_KEYS),), got));
    }
}

/// A reading that failed, or that is none, passes as it is. Else one that is
/// kept from the game is taken and answered with 0x80004005, and any other is
/// answered as it was.
pub proof fn law_kept_readings_fail<F: FnOnce() -> Vec<u8>>(
    kind_bits: u32,
    got: bool,
    hr: i32,
    keys: F,
    chord: &mut bool,
    backends: Backends,
    sink: &mut OverlayEventSink,
    finished: Finished,
    kind: GiKind,
    any: bool,
)
    requires
        call_ensures(
            finish_reading,
            (kind_bits, got, hr, keys, chord, &backends, sink),
            finished,
        ),
        call_ensures(classify_kind, (kind_bits,), kind),
        call_ensures(Backends::any_blocking, (&backends,), any),
    ensures
        hr < 0 || !got ==> finished.answer == hr && !finished.taken && finished.told@.len() == 0
            && *final(chord) == *old(chord) && final(sink)@ == old(sink)@,
        finished.taken ==> finished.answer == 0x8000_4005 - 0x1_0000_0000,
        !finished.taken ==> finished.answer == hr,
        hr >= 0 && got && !(kind is Keyboard) ==> (finished.taken <==> (any && !(kind is Other)))
            && finished.told@.len() == 0 && *final(chord) == *old(chord),
        hr >= 0 && got && kind is Keyboard ==> (finished.taken <==> (any || *final(chord))),
        hr >= 0 && got && kind is Keyboard ==> exists|read: Vec<u8>| #[trigger]
            call_ensures(keys, (), read) && (*final(chord) <==> (read@.contains(9) && (
            read@.contains(16) || read@.contains(160) || read@.contains(161)))),
        *final(chord) == *old(chord) || !*final(chord) ==> finished.told@.len() == 0 && final(sink)@
            == old(sink)@,
        *final(chord) && !*old(chord) ==> crate::hook::hotkey::reported(
            backends@,
            old(sink)@,
            final(sink)@,
            finished.told@,
        ),
{
    if hr >= 0 && got && kind is Keyboard {
        let read = choose|read: Vec<u8>| #[trigger]
            call_ensures(keys, (), read) && finishes(
                GiKind::Keyboard,
                read@,
                crate::backend::any_blocked(backends@),
                hr,
                *old(chord),
                *final(chord),
                finished,
            ) && if crate::hook::hotkey::rises(*old(chord), *final(chord)) {
                crate::hook::hotkey::reported(backends@, old(sink)@, final(sink)@, finished.told@)
            } else {
                finished.told@.len() == 0 && final(sink)@ == old(sink)@
            };
        assert(call_ensures(keys, (), read));
    }
}

/// A found detour is one of the list at the address.
proof fn lemma_detour_at(hooks: Seq<ReadingHook>, address: usize)
    ensures
        detour_at(hooks, address) is None <==> !detours(hooks, address),
        detour_at(hooks, address) matches Some(hook) ==> hook.address == address && exists|i: int|
            0 <= i < hooks.len() && #[trigger] hooks[i] == hook,
    decreases hooks.len(),
{
    if hooks.len() > 0 {
        let rest = hooks.drop_first();
        if hooks.first().address == address {
            assert(hooks[0].address == address);
        } else {
            lemma_detour_at(rest, address);
            if detours(hooks, address) {
                let i = choose|i: int| 0 <= i < hooks.len() && (#[trigger] hooks[i]).address == address;
                assert(rest[i - 1].address == address);
            }
            if let Some(hook) = detour_at(rest, address) {
                let i = choose|i: int| 0 <= i < rest.len() && #[trigger] rest[i] == hook;
                assert(hooks[i + 1] == hook);
                assert(hooks[i + 1].address == address);
            }
        }
    }
}

/// The real function behind an interface's own is that of a detour at its
/// address, with the layout that was noted for it; where there is none the
/// first detour stands in, and without any there is none.
pub proof fn law_readings_come_from_their_interface(
    hooks: Vec<ReadingHook>,
    address: Option<usize>,
    found: Option<(usize, KeyLayout)>,
)
    requires
        call_ensures(lookup_walk, (&hooks, address), found),
    ensures
        found is Some <==> hooks@.len() > 0,
        found is Some ==> exists|i: int|
            0 <= i < hooks@.len() && found == Some(
                ((#[trigger] hooks@[i]).original, hooks@[i].layout),
            ) && (if address is Some && (exists|k: int|
                0 <= k < hooks@.len() && (#[trigger] hooks@[k]).address == address->0) {
                hooks@[i].address == address->0
            } else {
                i == 0
            }),
{
    if address is Some {
        lemma_detour_at(hooks@, address->0);
    }
    if hooks@.len() > 0 {
        let hook = looked_up(hooks@, address)->0;
        if address is Some && detours(hooks@, address->0) {
            let i = choose|i: int| 0 <= i < hooks@.len() && #[trigger] hooks@[i] == hook;
            assert(hooks@[i].address == address->0);
        } else {
            assert(hooks@[0] == hook);
        }
    }
}

/// The current reading is looked for among the functions that give it.
pub proof fn law_current_reading_is_looked_up(
    set: ReadingHookSet,
    address: Option<usize>,
    found: Option<(usize, KeyLayout)>,
    walked: Option<(usize, KeyLayout)>,
    fresh: ReadingHookSet,
)
    requires
        call_ensures(ReadingHookSet::lookup_current, (&set, address), found),
        call_ensures(lookup_walk, (&set.current, address), walked),
        call_ensures(ReadingHookSet::new, (), fresh),
    ensures
        found == walked,
        fresh.current@.len() == 0 && fresh.next@.len() == 0 && fresh.prev@.len() == 0,
{
}

/// Each of the three functions of an interface is detoured once, in its own
/// list, with its own address and the interface's layout; an interface without
/// a table is left alone, and a failure leaves nothing.
pub proof fn law_interface_is_detoured_once<F: Fn(Walk, usize) -> Option<usize>>(
    set: &mut ReadingHookSet,
    slots: Option<Slots>,
    layout: KeyLayout,
    attach: F,
)
    requires
        call_ensures(ReadingHookSet::attach_readings::<F>, (set, slots, layout, &attach), ()),
    ensures
        slots is None ==> final(set)@ == old(set)@,
        slots matches Some(at) ==> {
            &&& detours(old(set).current@, at.current) ==> final(set).current@ == old(set).current@
            &&& !detours(old(set).current@, at.current) ==> exists|made: Option<usize>| #[trigger]
                call_ensures(attach, (Walk::Current, at.current), made) && final(set).current@ == (
                if made is Some {
                    old(set).current@.push(
                        ReadingHook { address: at.current, layout, original: made->0 },
                    )
                } else {
                    old(set).current@
                })
            &&& detours(old(set).next@, at.next) ==> final(set).next@ == old(set).next@
            &&& !detours(old(set).next@, at.next) ==> exists|made: Option<usize>| #[trigger]
                call_ensures(attach, (Walk::Next, at.next), made) && final(set).next@ == (if made
                    is Some {
                    old(set).next@.push(
                        ReadingHook { address: at.next, layout, original: made->0 },
                    )
                } else {
                    old(set).next@
                })
            &&& detours(old(set).prev@, at.prev) ==> final(set).prev@ == old(set).prev@
            &&& !detours(old(set).prev@, at.prev) ==> exists|made: Option<usize>| #[trigger]
                call_ensures(attach, (Walk::Prev, at.prev), made) && final(set).prev@ == (if made
                    is Some {
                    old(set).prev@.push(
                        ReadingHook { address: at.prev, layout, original: made->0 },
                    )
                } else {
                    old(set).prev@
                })
        },
{
    if let Some(at) = slots {
        assert(walk_attached(
            old(set).current@,
            Walk::Current,
            at.current,
            layout,
            attach,
            final(set).current@,
        ));
        assert(walk_attached(
            old(set).next@,
            Walk::Next,
            at.next,
            layout,
            attach,
            final(set).next@,
        ));
        assert(walk_attached(
            old(set).prev@,
            Walk::Prev,
            at.prev,
            layout,
            attach,
            final(set).prev@,
        ));
    }
}

/// Whatever was detoured before stays detoured, under its own function. An
/// interface that answers for no version is detoured as one of a later version.
pub proof fn law_detours_of_readings_stay<F: Fn(Walk, usize) -> Option<usize>>(
    set: &mut ReadingHookSet,
    own: Option<Slots>,
    answers: Vec<Option<Option<Slots>>>,
    attach: F,
    address: usize,
)
    requires
        call_ensures(ReadingHookSet::hook_iface::<F>, (set, own, &answers, &attach), ()),
        answers@.len() == 4,
    ensures
        detours(old(set).current@, address) ==> detours(final(set).current@, address),
        detours(old(set).next@, address) ==> detours(final(set).next@, address),
        detours(old(set).prev@, address) ==> detours(final(set).prev@, address),
        (forall|i: int| 0 <= i < 4 ==> (#[trigger] answers@[i]) is None) ==> readings_attached(
            old(set)@,
            own,
            KeyLayout::V1,
            attach,
            final(set)@,
        ),
        answers@[0] is Some && answers@[1] is None && answers@[2] is None && answers@[3] is None
            ==> readings_attached(
            old(set)@,
            answers@[0]->0,
            KeyLayout::V1,
            attach,
            final(set)@,
        ),
        answers@[3] is Some && answers@[0] is None && answers@[1] is None && answers@[2] is None
            ==> readings_attached(
            old(set)@,
            answers@[3]->0,
            KeyLayout::V0,
            attach,
            final(set)@,
        ),
{
    let before = old(set)@;
    let after = final(set)@;
    if any_answer(answers@) {
        lemma_versions_kept(before, answers@, attach, after);
        lemma_single_version(before, answers@, attach, after);
    } else {
        lemma_readings_kept(before, own, KeyLayout::V1, attach, after);
        assert(forall|i: int| 0 <= i < 4 ==> !((#[trigger] answers@[i]) is Some));
    }
    assert(before.of(Walk::Current) == old(set).current@);
    assert(before.of(Walk::Next) == old(set).next@);
    assert(before.of(Walk::Prev) == old(set).prev@);
    assert(after.of(Walk::Current) == final(set).current@);
    assert(after.of(Walk::Next) == final(set).next@);
    assert(after.of(Walk::Prev) == final(set).prev@);
}

/// Detouring versions leaves what was detoured before.
proof fn lemma_versions_kept<F: Fn(Walk, usize) -> Option<usize>>(
    before: ReadingSet,
    answers: Seq<Option<Option<Slots>>>,
    attach: F,
    after: ReadingSet,
)
    requires
        versions_attached(before, answers, attach, after),
    ensures
        kept(before, after),
    decreases answers.len(),
{
    if answers.len() > 0 {
        let layout = version_layout(answers.len() - 1);
        let between = choose|between: ReadingSet| #[trigger]
            version_attached(between, answers.last(), layout, attach, after) && versions_attached(
                before,
                answers.drop_last(),
                attach,
                between,
            );
        lemma_versions_kept(before, answers.drop_last(), attach, between);
        if let Some(slots) = answers.last() {
            lemma_readings_kept(between, slots, layout, attach, after);
        }
        assert forall|walk: Walk, address: usize| #[trigger]
            detours(before.of(walk), address) implies detours(after.of(walk), address) by {
            assert(detours(between.of(walk), address));
        }
    }
}

/// Versions that do not answer change nothing, so one that alone does is
/// detoured alone, with the layout of its place.
proof fn lemma_single_version<F: Fn(Walk, usize) -> Option<usize>>(
    before: ReadingSet,
    answers: Seq<Option<Option<Slots>>>,
    attach: F,
    after: ReadingSet,
)
    requires
        versions_attached(before, answers, attach, after),
    ensures
        (forall|i: int| 0 <= i < answers.len() ==> (#[trigger] answers[i]) is None) ==> after
            == before,
        forall|k: int|
            0 <= k < answers.len() && (#[trigger] answers[k]) is Some && (forall|i: int|
                0 <= i < answers.len() && i != k ==> (#[trigger] answers[i]) is None)
                ==> readings_attached(before, answers[k]->0, version_layout(k), attach, after),
    decreases answers.len(),
{
    if answers.len() > 0 {
        let n = answers.len() - 1;
        let fewer = answers.drop_last();
        let between = choose|between: ReadingSet| #[trigger]
            version_attached(between, answers.last(), version_layout(n), attach, after)
                && versions_attached(before, fewer, attach, between);
        lemma_single_version(before, fewer, attach, between);
        assert(answers.last() == answers[n]);
        assert forall|i: int| 0 <= i < fewer.len() implies #[trigger] fewer[i] == answers[i] by {}
        if forall|i: int| 0 <= i < fewer.len() ==> (#[trigger] answers[i]) is None {
            assert forall|i: int| 0 <= i < fewer.len() implies (#[trigger] fewer[i]) is None by {
                assert(answers[i] is None);
            }
            assert(between == before);
        }
        assert forall|k: int|
            0 <= k < answers.len() && (#[trigger] answers[k]) is Some && (forall|i: int|
                0 <= i < answers.len() && i != k ==> (#[trigger] answers[i]) is None) implies
            readings_attached(before, answers[k]->0, version_layout(k), attach, after) by {
            if k < n {
                assert(answers[n] is None);
                assert(fewer[k] == answers[k]);
                assert forall|i: int| 0 <= i < fewer.len() && i != k implies (#[trigger] fewer[i])
                    is None by {
                    assert(answers[i] is None);
                }
            } else {
                assert forall|i: int| 0 <= i < fewer.len() implies (#[trigger] answers[i])
                    is None by {}
                assert(between == before);
            }
        }
    }
}

/// An interface that was asked for by the name of a version is detoured as that
/// version, whatever else it answers for.
pub proof fn law_named_interface_is_detoured_as_its_version<F: Fn(Walk, usize) -> Option<usize>>(
    set: &mut ReadingHookSet,
    iid: u128,
    own: Option<Slots>,
    answers: Vec<Option<Option<Slots>>>,
    attach: F,
    version: Option<(&'static str, KeyLayout)>,
)
    requires
        call_ensures(ReadingHookSet::hook_known::<F>, (set, iid, own, &answers, &attach), ()),
        call_ensures(version_of, (iid,), version),
    ensures
        version is Some ==> readings_attached(
            old(set)@,
            own,
            (version->0).1,
            attach,
            final(set)@,
        ),
        version is None && (forall|i: int|
            0 <= i < answers@.len() ==> (#[trigger] answers@[i]) is None) ==> readings_attached(
            old(set)@,
            own,
            KeyLayout::V1,
            attach,
            final(set)@,
        ),
{
    if forall|i: int| 0 <= i < answers@.len() ==> (#[trigger] answers@[i]) is None {
        assert(!any_answer(answers@));
    }
}

/// The four versions are told by their names, `20EFC1C7-..` for 3.0,
/// `BBAA66D2-..` for 2.0, `40FFB7E4-..` for 1.1 and `11BE2A7E-..` for 1.0; the
/// last has the first layout, and the others the later one. No other name is
/// that of a version.
pub proof fn law_versions_are_told_by_their_names(
    iid: u128,
    version: Option<(&'static str, KeyLayout)>,
)
    requires
        call_ensures(version_of, (iid,), version),
    ensures
        iid == 0x20EFC1C7_5D9A_43BA_B26F_B807FA48609C ==> version is Some && (version->0).1 is V1
            && (version->0).0@ == "v3.0"@,
        iid == 0xBBAA66D2_837A_40F7_A303_917D500955F4 ==> version is Some && (version->0).1 is V1
            && (version->0).0@ == "v2.0"@,
        iid == 0x40FFB7E4_6150_407A_B439_132BADC08D2D ==> version is Some && (version->0).1 is V1
            && (version->0).0@ == "v1.1"@,
        iid == 0x11BE2A7E_4254_445A_9C09_FFC40F006918 ==> version is Some && (version->0).1 is V0
            && (version->0).0@ == "v1.0"@,
        version is Some ==> iid == 0x20EFC1C7_5D9A_43BA_B26F_B807FA48609C || iid
            == 0xBBAA66D2_837A_40F7_A303_917D500955F4 || iid
            == 0x40FFB7E4_6150_407A_B439_132BADC08D2D || iid
            == 0x11BE2A7E_4254_445A_9C09_FFC40F006918,
{
}

/// The versions are asked for from the newest to the oldest, each once and with
/// the layout that its name tells.
pub proof fn law_versions_are_asked_for_in_order(
    all: Vec<(u128, KeyLayout)>,
    i: int,
    version: Option<(&'static str, KeyLayout)>,
)
    requires
        call_ensures(versions, (), all),
        0 <= i < all@.len(),
        call_ensures(version_of, (all@[i].0,), version),
    ensures
        all@.len() == 4,
        version is Some && (version->0).1 == all@[i].1,
        (version->0).0@ == (if i == 0 {
            "v3.0"@
        } else if i == 1 {
            "v2.0"@
        } else if i == 2 {
            "v1.1"@
        } else {
            "v1.0"@
        }),
{
}

/// An object is detoured exactly if it was created in a place under the name of
/// a version.
pub proof fn law_created_versions_are_detoured(
    hr: i32,
    iid: Option<u128>,
    place: bool,
    hooks: bool,
    version: Option<(&'static str, KeyLayout)>,
)
    requires
        call_ensures(co_create_hooks, (hr, iid, place), hooks),
        iid is Some ==> call_ensures(version_of, (iid->0,), version),
    ensures
        hooks <==> (hr >= 0 && place && iid is Some && version is Some),
{
}

} // verus!
