//! Game controllers of the Windows runtime.
//!
//! The factories that the game asks for are the real ones. Three of them lead to
//! controllers whose readings are emptied while the overlay is interactive.

use vstd::prelude::*;

verus! {

/// Where `FromGameController` stands in the table of the second gamepad factory.
pub const VT_IGAMEPAD2_FROM: usize = 6;

/// Where `FromGameController` stands in the table of the raw controller factory.
pub const VT_IRAW_FROM: usize = 11;

/// Where `GetCurrentReading` stands in the table of a gamepad.
pub const VT_IGAMEPAD_READING: usize = 8;

/// Where `GetCurrentReading` stands in the table of a raw controller.
pub const VT_IRAW_READING: usize = 13;

/// The name of the raw controller factory, as two words.
pub const QWORD_RAW: (u64, u64) = (0x4B19_E95A_EB8D_0792, 0x9E75_BFF8_590A_C7AF);

/// The name of the gamepad factory, as two words.
pub const QWORD_GAMEPAD: (u64, u64) = (0x39E9_D49C_8BBC_E529, 0xC8B7_96DE_7DE4_6095);

/// The name of the second gamepad factory, as two words.
pub const QWORD_GAMEPAD2: (u64, u64) = (0x47C4_0856_4267_6DC5, 0x3C3A_4C50_95B3_1392);

/// The answer "failed".
pub const E_FAIL: i32 = -0x7FFF_BFFB;

/// The factories that lead to controllers.
#[derive(Debug, Clone, Copy, PartialEq, Eq, Structural)]
pub enum FactoryKind {
    Raw,
    Gamepad,
    Gamepad2,
}

/// The word that eight bytes stand for, the lowest byte first.
pub open spec fn le_word(bytes: Seq<u8>) -> int
    recommends
        bytes.len() == 8,
{
    bytes[0] + 0x100 * bytes[1] + 0x1_0000 * bytes[2] + 0x100_0000 * bytes[3] + 0x1_0000_0000
        * bytes[4] + 0x100_0000_0000 * bytes[5] + 0x1_0000_0000_0000 * bytes[6]
        + 0x100_0000_0000_0000 * bytes[7]
}

/// The two words that a name of 16 bytes stands for.
pub open spec fn qwords(name: Seq<u8>) -> (int, int) {
    (le_word(name.take(8)), le_word(name.skip(8)))
}

/// The factory of a name.
pub open spec fn named_factory(words: (int, int)) -> Option<FactoryKind> {
    if words == (QWORD_RAW.0 as int, QWORD_RAW.1 as int) {
        Some(FactoryKind::Raw)
    } else if words == (QWORD_GAMEPAD.0 as int, QWORD_GAMEPAD.1 as int) {
        Some(FactoryKind::Gamepad)
    } else if words == (QWORD_GAMEPAD2.0 as int, QWORD_GAMEPAD2.1 as int) {
        Some(FactoryKind::Gamepad2)
    } else {
        None
    }
}

/// The word that eight bytes of a name stand for.
fn word_at(name: &[u8; 16], from: usize) -> (word: u64)
    requires
        from <= 8,
    ensures
        word == le_word(name@.subrange(from as int, from + 8)),
{
    let low: u64 = name[from] as u64 + 0x100 * name[from + 1] as u64 + 0x1_0000 * name[from
        + 2] as u64 + 0x100_0000 * name[from + 3] as u64;
    let high: u64 = name[from + 4] as u64 + 0x100 * name[from + 5] as u64 + 0x1_0000 * name[from
        + 6] as u64 + 0x100_0000 * name[from + 7] as u64;
    low + 0x1_0000_0000 * high
}

/// The two words of a name, if there is one.
pub fn iid_qwords(iid: Option<&[u8; 16]>) -> (words: Option<(u64, u64)>)
    ensures
        words is Some <==> iid is Some,
        words matches Some(words) ==> (words.0 as int, words.1 as int) == qwords((iid->0)@),
{
    match iid {
        None => None,
        Some(name) => {
            assert(name@.subrange(0, 8) =~= name@.take(8));
            assert(name@.subrange(8, 16) =~= name@.skip(8));
            Some((word_at(name, 0), word_at(name, 8)))
        },
    }
}

/// The factory that a name stands for, if it is one of those that lead to
/// controllers.
pub fn factory_kind(iid: Option<&[u8; 16]>) -> (kind: Option<FactoryKind>)
    ensures
        kind == match iid {
            Some(name) => named_factory(qwords(name@)),
            None => None,
        },
{
    let words = match iid_qwords(iid) {
        Some(words) => words,
        None => {
            return None;
        },
    };
    if words.0 == QWORD_RAW.0 && words.1 == QWORD_RAW.1 {
        Some(FactoryKind::Raw)
    } else if words.0 == QWORD_GAMEPAD.0 && words.1 == QWORD_GAMEPAD.1 {
        Some(FactoryKind::Gamepad)
    } else if words.0 == QWORD_GAMEPAD2.0 && words.1 == QWORD_GAMEPAD2.1 {
        Some(FactoryKind::Gamepad2)
    } else {
        None
    }
}

/// A reading of a gamepad with everything but its time, the first 8 of its 64
/// bytes, emptied.
pub open spec fn emptied(reading: Seq<u8>) -> Seq<u8> {
    Seq::new(
        reading.len(),
        |i: int|
            if 8 <= i < 64 {
                0
            } else {
                reading[i]
            },
    )
}

/// Empties a reading of a gamepad but for its time. Where there is no reading,
/// `buf` is empty.
pub fn empty_gamepad_reading(buf: &mut [u8])
    requires
        old(buf)@.len() == 0 || old(buf)@.len() >= 64,
    ensures
        final(buf)@ == emptied(old(buf)@),
{
    let ghost before = buf@;
    if buf.len() == 0 {
        assert(buf@ =~= emptied(before));
        return ;
    }
    let mut i: usize = 8;
    while i < 64
        invariant
            8 <= i <= 64,
            buf@.len() == before.len(),
            before.len() >= 64,
            forall|k: int|
                0 <= k < before.len() ==> buf@[k] == if 8 <= k < i {
                    0
                } else {
                    before[k]
                },
        decreases 64 - i,
    {
        buf[i] = 0;
        i += 1;
    }
    assert(buf@ =~= emptied(before));
}

/// A list with its first `n` items emptied.
pub open spec fn cleared<T>(items: Seq<T>, n: int, zero: T) -> Seq<T> {
    Seq::new(
        items.len(),
        |i: int|
            if i < n {
                zero
            } else {
                items[i]
            },
    )
}

/// Empties the buttons and switches of a raw controller. Where there are none,
/// the list is empty.
pub fn empty_raw_reading(
    buttons: &mut [u8],
    button_n: u32,
    switches: &mut [u32],
    switch_n: u32,
)
    requires
        old(buttons)@.len() == 0 || old(buttons)@.len() >= button_n,
        old(switches)@.len() == 0 || old(switches)@.len() >= switch_n,
    ensures
        final(buttons)@ == cleared(old(buttons)@, button_n as int, 0u8),
        final(switches)@ == cleared(old(switches)@, switch_n as int, 0u32),
{
    let ghost some_buttons = buttons@;
    let ghost some_switches = switches@;
    if buttons.len() > 0 {
        let mut i: u32 = 0;
        while i < button_n
            invariant
                i <= button_n <= buttons@.len(),
                buttons@.len() == some_buttons.len(),
                forall|k: int|
                    0 <= k < buttons@.len() ==> buttons@[k] == if k < i {
                        0
                    } else {
                        some_buttons[k]
                    },
            decreases button_n - i,
        {
            buttons[i as usize] = 0;
            i += 1;
        }
    }
    assert(buttons@ =~= cleared(some_buttons, button_n as int, 0u8));
    if switches.len() > 0 {
        let mut i: u32 = 0;
        while i < switch_n
            invariant
                i <= switch_n <= switches@.len(),
                switches@.len() == some_switches.len(),
                forall|k: int|
                    0 <= k < switches@.len() ==> switches@[k] == if k < i {
                        0
                    } else {
                        some_switches[k]
                    },
            decreases switch_n - i,
        {
            switches[i as usize] = 0;
            i += 1;
        }
    }
    assert(switches@ =~= cleared(some_switches, switch_n as int, 0u32));
}

/// A detoured `FromGameController`.
#[derive(Debug, Clone, Copy, PartialEq, Eq, Structural)]
pub struct FromHook {
    pub address: usize,
    pub kind: FactoryKind,
    pub original: usize,
}

/// The detoured functions: those that make controllers, and the real functions
/// that read gamepads and raw controllers.
pub struct ReadingHooks {
    pub from_ctrl: Vec<FromHook>,
    pub gamepad: Vec<usize>,
    pub raw: Vec<usize>,
}

/// The place of the function that makes controllers in the table of a factory,
/// if the factory has it.
pub open spec fn from_slot(kind: FactoryKind) -> Option<usize> {
    match kind {
        FactoryKind::Raw => Some(VT_IRAW_FROM),
        FactoryKind::Gamepad2 => Some(VT_IGAMEPAD2_FROM),
        FactoryKind::Gamepad => None,
    }
}

/// The place of the function that reads in the table of a controller that came
/// from a factory.
pub open spec fn reading_slot(kind: FactoryKind) -> usize {
    match kind {
        FactoryKind::Raw => VT_IRAW_READING,
        _ => VT_IGAMEPAD_READING,
    }
}

/// Whether a function is detoured at an address.
pub open spec fn has_from(hooks: Seq<FromHook>, address: usize) -> bool {
    exists|i: int| 0 <= i < hooks.len() && #[trigger] hooks[i].address == address
}

/// The first detour at an address.
pub open spec fn from_at(hooks: Seq<FromHook>, address: usize) -> Option<FromHook>
    decreases hooks.len(),
{
    if hooks.len() == 0 {
        None
    } else if hooks.first().address == address {
        Some(hooks.first())
    } else {
        from_at(hooks.drop_first(), address)
    }
}

/// Finds the first detour at an address.
fn find_from(hooks: &Vec<FromHook>, address: usize) -> (found: Option<FromHook>)
    ensures
        found == from_at(hooks@, address),
        found is Some <==> has_from(hooks@, address),
{
    let mut i: usize = 0;
    assert(hooks@.skip(0) =~= hooks@);
    while i < hooks.len()
        invariant
            i <= hooks@.len(),
            from_at(hooks@, address) == from_at(hooks@.skip(i as int), address),
            forall|k: int| 0 <= k < i ==> (#[trigger] hooks@[k]).address != address,
        decreases hooks@.len() - i,
    {
        assert(hooks@.skip(i as int).drop_first() =~= hooks@.skip(i + 1));
        if hooks[i].address == address {
            return Some(hooks[i]);
        }
        i += 1;
    }
    None
}

/// Whether a list holds a function.
fn holds(originals: &Vec<usize>, function: usize) -> (held: bool)
    ensures
        held == originals@.contains(function),
{
    let mut i: usize = 0;
    while i < originals.len()
        invariant
            i <= originals@.len(),
            forall|k: int| 0 <= k < i ==> originals@[k] != function,
        decreases originals@.len() - i,
    {
        if originals[i] == function {
            return true;
        }
        i += 1;
    }
    false
}

/// The list of real functions once `function` is detoured with `made`; one that
/// is held already is not detoured again.
pub open spec fn with_reading(originals: Seq<usize>, function: usize, made: Option<usize>) -> Seq<
    usize,
> {
    if originals.contains(function) {
        originals
    } else {
        match made {
            Some(original) => originals.push(original),
            None => originals,
        }
    }
}

/// Detours the reading of a controller.
fn attach_to<F: FnOnce(usize) -> Option<usize>>(
    originals: &mut Vec<usize>,
    function: usize,
    attach: F,
)
    requires
        !old(originals)@.contains(function) ==> call_requires(attach, (function,)),
    ensures
        if old(originals)@.contains(function) {
            final(originals)@ == old(originals)@
        } else {
            exists|made: Option<usize>| #[trigger]
                call_ensures(attach, (function,), made) && final(originals)@ == with_reading(
                    old(originals)@,
                    function,
                    made,
                )
        },
{
    if holds(originals, function) {
        return ;
    }
    let made = attach(function);
    assert(call_ensures(attach, (function,), made));
    if let Some(original) = made {
        originals.push(original);
    }
}

impl ReadingHooks {
    /// Nothing is detoured.
    pub fn new() -> (hooks: ReadingHooks)
        ensures
            hooks.from_ctrl@.len() == 0,
            hooks.gamepad@.len() == 0,
            hooks.raw@.len() == 0,
    {
        ReadingHooks { from_ctrl: Vec::new(), gamepad: Vec::new(), raw: Vec::new() }
    }

    /// The real functions that read controllers which came from a factory.
    pub open spec fn readers(self, kind: FactoryKind) -> Seq<usize> {
        match kind {
            FactoryKind::Raw => self.raw@,
            _ => self.gamepad@,
        }
    }

    /// Detours the reading of a controller that came from a factory; `function`
    /// is what stands at `reading_slot` in its table, if it has one. It is left
    /// alone if it is one of the real functions that are kept; a detoured
    /// function, whose real one lies elsewhere, is detoured again.
    pub fn attach_reading<F: FnOnce(usize) -> Option<usize>>(
        &mut self,
        kind: FactoryKind,
        function: Option<usize>,
        attach: F,
    )
        requires
            function matches Some(function) ==> (!old(self).readers(kind).contains(function)
                ==> call_requires(attach, (function,))),
        ensures
            final(self).from_ctrl == old(self).from_ctrl,
            kind == FactoryKind::Raw ==> final(self).gamepad == old(self).gamepad,
            kind != FactoryKind::Raw ==> final(self).raw == old(self).raw,
            function is None || old(self).readers(kind).contains(function->0) ==> final(self).readers(kind) == old(self).readers(kind),
            function is Some && !old(self).readers(kind).contains(function->0) ==> exists|
                made: Option<usize>,
            | #[trigger]
                call_ensures(attach, (function->0,), made) && final(self).readers(kind)
                    == with_reading(old(self).readers(kind), function->0, made),
    {
        let function: usize = match function {
            Some(function) => function,
            None => {
                return ;
            },
        };
        match kind {
            FactoryKind::Raw => attach_to(&mut self.raw, function, attach),
            FactoryKind::Gamepad | FactoryKind::Gamepad2 => attach_to(
                &mut self.gamepad,
                function,
                attach,
            ),
        }
    }

    /// Detours the function of a factory that makes controllers, unless it is
    /// detoured already.
    pub fn attach_from_ctrl<F: FnOnce(usize) -> Option<usize>>(
        &mut self,
        kind: FactoryKind,
        function: Option<usize>,
        attach: F,
    )
        requires
            function matches Some(function) ==> (!has_from(old(self).from_ctrl@, function)
                ==> call_requires(attach, (function,))),
        ensures
            final(self).gamepad == old(self).gamepad,
            final(self).raw == old(self).raw,
            function is None || has_from(old(self).from_ctrl@, function->0) ==> final(self).from_ctrl@ == old(self).from_ctrl@,
            function is Some && !has_from(old(self).from_ctrl@, function->0) ==> exists|
                made: Option<usize>,
            | #[trigger]
                call_ensures(attach, (function->0,), made) && final(self).from_ctrl@
                    == with_from(old(self).from_ctrl@, function->0, kind, made),
    {
        let address: usize = match function {
            Some(function) => function,
            None => {
                return ;
            },
        };
        if find_from(&self.from_ctrl, address).is_some() {
            return ;
        }
        let made = attach(address);
        assert(call_ensures(attach, (address,), made));
        if let Some(original) = made {
            self.from_ctrl.push(FromHook { address, kind, original });
        }
    }

    /// Detours what a known factory makes controllers with. `slot` tells the
    /// function at a place of the factory's table; a factory without such a
    /// place is not looked at.
    pub fn hook_known<S: FnOnce(usize) -> Option<usize>, F: FnOnce(usize) -> Option<usize>>(
        &mut self,
        kind: FactoryKind,
        slot: S,
        attach: F,
    )
        requires
            from_slot(kind) matches Some(index) ==> call_requires(slot, (index,)),
            from_slot(kind) matches Some(index) ==> forall|function: usize| #[trigger]
                call_ensures(slot, (index,), Some(function)) && !has_from(
                    old(self).from_ctrl@,
                    function,
                ) ==> call_requires(attach, (function,)),
        ensures
            final(self).gamepad == old(self).gamepad,
            final(self).raw == old(self).raw,
            from_slot(kind) is None ==> final(self).from_ctrl@ == old(self).from_ctrl@,
            from_slot(kind) is Some ==> exists|function: Option<usize>| #[trigger]
                call_ensures(slot, (from_slot(kind)->0,), function) && from_attached(
                    old(self).from_ctrl@,
                    function,
                    kind,
                    attach,
                    final(self).from_ctrl@,
                ),
    {
        let index: usize = match kind {
            FactoryKind::Raw => VT_IRAW_FROM,
            FactoryKind::Gamepad2 => VT_IGAMEPAD2_FROM,
            FactoryKind::Gamepad => {
                return ;
            },
        };
        let function = slot(index);
        assert(call_ensures(slot, (index,), function));
        self.attach_from_ctrl(kind, function, attach);
    }

    /// The function that really makes controllers for a factory, and what the
    /// factory is: that behind one of the two places where it may stand, else
    /// the first that was detoured.
    pub open spec fn maker(self, gamepad_slot: Option<usize>, raw_slot: Option<usize>) -> Option<
        FromHook,
    > {
        let at_gamepad = if gamepad_slot is Some {
            from_at(self.from_ctrl@, gamepad_slot->0)
        } else {
            None
        };
        let at_raw = if raw_slot is Some {
            from_at(self.from_ctrl@, raw_slot->0)
        } else {
            None
        };
        if at_gamepad is Some {
            at_gamepad
        } else if at_raw is Some {
            at_raw
        } else if self.from_ctrl@.len() > 0 {
            Some(self.from_ctrl@[0])
        } else {
            None
        }
    }

    /// Finds the function that really makes controllers for a factory.
    pub fn lookup_from(&self, gamepad_slot: Option<usize>, raw_slot: Option<usize>) -> (found:
        Option<(usize, FactoryKind)>)
        ensures
            found == match self.maker(gamepad_slot, raw_slot) {
                Some(hook) => Some((hook.original, hook.kind)),
                None => None,
            },
    {
        if let Some(address) = gamepad_slot {
            if let Some(hook) = find_from(&self.from_ctrl, address) {
                return Some((hook.original, hook.kind));
            }
        }
        if let Some(address) = raw_slot {
            if let Some(hook) = find_from(&self.from_ctrl, address) {
                return Some((hook.original, hook.kind));
            }
        }
        if self.from_ctrl.len() > 0 {
            let hook = self.from_ctrl[0];
            Some((hook.original, hook.kind))
        } else {
            None
        }
    }

    /// Asks a factory for a controller: the answer, and the factory's kind where
    /// the controller that came out is to be detoured. `call` runs the real
    /// function and tells whether there is a place for the controller.
    pub fn from_ctrl<C: FnOnce(usize) -> (i32, bool)>(
        &self,
        gamepad_slot: Option<usize>,
        raw_slot: Option<usize>,
        call: C,
    ) -> (outcome: (i32, Option<FactoryKind>))
        requires
            self.maker(gamepad_slot, raw_slot) matches Some(hook) ==> call_requires(
                call,
                (hook.original,),
            ),
        ensures
            self.maker(gamepad_slot, raw_slot) is None ==> outcome.0 == E_FAIL && outcome.1 is None,
            self.maker(gamepad_slot, raw_slot) is Some ==> exists|answer: (i32, bool)| #[trigger]
                call_ensures(call, (self.maker(gamepad_slot, raw_slot)->0.original,), answer)
                    && outcome.0 == answer.0 && outcome.1 == if answer.0 >= 0 && answer.1 {
                    Some(self.maker(gamepad_slot, raw_slot)->0.kind)
                } else {
                    None
                },
    {
        match self.lookup_from(gamepad_slot, raw_slot) {
            None => (E_FAIL, None),
            Some((original, kind)) => {
                let answer = call(original);
                assert(call_ensures(call, (original,), answer));
                if answer.0 >= 0 && answer.1 {
                    (answer.0, Some(kind))
                } else {
                    (answer.0, None)
                }
            },
        }
    }
}

/// The first real function of a list.
pub open spec fn first_reader(originals: Seq<usize>) -> Option<usize> {
    if originals.len() > 0 {
        Some(originals[0])
    } else {
        None
    }
}

/// Reads a controller, with the first real function: the answer, and whether the
/// reading is to be emptied.
pub fn read_controller<C: FnOnce(usize) -> i32>(
    originals: &Vec<usize>,
    interactive: bool,
    call: C,
) -> (outcome: (i32, bool))
    requires
        first_reader(originals@) matches Some(original) ==> call_requires(call, (original,)),
    ensures
        match first_reader(originals@) {
            None => outcome.0 == E_FAIL && !outcome.1,
            Some(original) => call_ensures(call, (original,), outcome.0) && outcome.1 == (outcome.0
                >= 0 && interactive),
        },
{
    if originals.len() == 0 {
        return (E_FAIL, false);
    }
    let hr: i32 = call(originals[0]);
    (hr, hr >= 0 && interactive)
}

/// What is done about a factory that the game asked for by name: nothing where
/// it did not get one, or it is none of those that lead to controllers.
pub fn after_ro_get(hr: i32, iid: Option<&[u8; 16]>, got: bool) -> (kind: Option<FactoryKind>)
    ensures
        kind == if hr >= 0 && got && iid is Some {
            named_factory(qwords((iid->0)@))
        } else {
            None
        },
{
    if hr < 0 {
        return None;
    }
    match factory_kind(iid) {
        Some(kind) => {
            if got {
                Some(kind)
            } else {
                None
            }
        },
        None => None,
    }
}

/// The detours once `function` is detoured with `made`.
pub open spec fn with_from(
    hooks: Seq<FromHook>,
    address: usize,
    kind: FactoryKind,
    made: Option<usize>,
) -> Seq<FromHook> {
    match made {
        Some(original) => hooks.push(FromHook { address, kind, original }),
        None => hooks,
    }
}

/// Whether `after` are the detours once `function` is detoured, where there is
/// one that is not detoured already.
pub open spec fn from_attached<F: FnOnce(usize) -> Option<usize>>(
    before: Seq<FromHook>,
    function: Option<usize>,
    kind: FactoryKind,
    attach: F,
    after: Seq<FromHook>,
) -> bool {
    if function is None || has_from(before, function->0) {
        after == before
    } else {
        exists|made: Option<usize>| #[trigger]
            call_ensures(attach, (function->0,), made) && after == with_from(
                before,
                function->0,
                kind,
                made,
            )
    }
}

/// Emptying a reading of a gamepad keeps its time and nothing else of it.
pub proof fn law_emptied_reading_keeps_its_time(reading: Seq<u8>)
    requires
        reading.len() == 64,
    ensures
        emptied(reading).take(8) == reading.take(8),
        forall|i: int| 8 <= i < 64 ==> emptied(reading)[i] == 0,
        emptied(emptied(reading)) == emptied(reading),
{
    assert(emptied(reading).take(8) =~= reading.take(8));
    assert(emptied(emptied(reading)) =~= emptied(reading));
}

/// A number tells its lowest byte and the rest of it.
proof fn lemma_lowest_byte(one: u8, rest: int, other: u8, more: int)
    requires
        one + 0x100 * rest == other + 0x100 * more,
    ensures
        one == other,
        rest == more,
{
}

/// The number that bytes stand for, the lowest first.
spec fn le_number(bytes: Seq<u8>) -> int
    decreases bytes.len(),
{
    if bytes.len() == 0 {
        0
    } else {
        bytes[0] + 0x100 * le_number(bytes.drop_first())
    }
}

/// As many bytes that stand for one number are the same bytes.
proof fn lemma_number_tells_its_bytes(one: Seq<u8>, other: Seq<u8>)
    requires
        one.len() == other.len(),
        le_number(one) == le_number(other),
    ensures
        one == other,
    decreases one.len(),
{
    if one.len() > 0 {
        lemma_lowest_byte(
            one[0],
            le_number(one.drop_first()),
            other[0],
            le_number(other.drop_first()),
        );
        lemma_number_tells_its_bytes(one.drop_first(), other.drop_first());
        assert(one =~= seq![one[0]] + one.drop_first());
        assert(other =~= seq![other[0]] + other.drop_first());
    } else {
        assert(one =~= other);
    }
}

/// A word is the number of its bytes.
proof fn lemma_word_is_a_number(bytes: Seq<u8>)
    requires
        bytes.len() == 8,
    ensures
        le_word(bytes) == le_number(bytes),
{
    let a = bytes.drop_first();
    let b = a.drop_first();
    let c = b.drop_first();
    let d = c.drop_first();
    let e = d.drop_first();
    let f = e.drop_first();
    let g = f.drop_first();
    let h = g.drop_first();
    assert(h.len() == 0);
    assert(le_number(h) == 0);
    assert(le_number(g) == bytes[7]);
    assert(le_number(f) == bytes[6] + 0x100 * le_number(g));
    assert(le_number(e) == bytes[5] + 0x100 * le_number(f));
    assert(le_number(d) == bytes[4] + 0x100 * le_number(e));
    assert(le_number(c) == bytes[3] + 0x100 * le_number(d));
    assert(le_number(b) == bytes[2] + 0x100 * le_number(c));
    assert(le_number(a) == bytes[1] + 0x100 * le_number(b));
    assert(le_number(bytes) == bytes[0] + 0x100 * le_number(a));
}

/// Two times eight bytes that stand for one word are the same bytes.
pub proof fn lemma_word_tells_its_bytes(one: Seq<u8>, other: Seq<u8>)
    requires
        one.len() == 8,
        other.len() == 8,
        le_word(one) == le_word(other),
    ensures
        one == other,
{
    lemma_word_is_a_number(one);
    lemma_word_is_a_number(other);
    lemma_number_tells_its_bytes(one, other);
}

/// Two names that stand for the same words are the same name.
pub proof fn law_words_tell_names_apart(
    one: &[u8; 16],
    other: &[u8; 16],
    words: Option<(u64, u64)>,
)
    requires
        call_ensures(iid_qwords, (Some(one),), words),
        call_ensures(iid_qwords, (Some(other),), words),
    ensures
        one@ == other@,
{
    lemma_word_tells_its_bytes(one@.take(8), other@.take(8));
    lemma_word_tells_its_bytes(one@.skip(8), other@.skip(8));
    assert(one@ =~= one@.take(8) + one@.skip(8));
    assert(other@ =~= other@.take(8) + other@.skip(8));
}

/// A factory is told by all bytes of its name: `EB8D0792-E95A-4B19-AFC7-
/// 0A59F8BF759E` for raw controllers, `8BBCE529-D49C-39E9-9560-E47DDE96B7C8` for
/// gamepads and `42676DC5-0856-47C4-9213-B395504C3A3C` for the second factory of
/// these. No other name, nor none, is that of a factory.
pub proof fn law_factories_are_told_by_their_names(
    iid: Option<&[u8; 16]>,
    kind: Option<FactoryKind>,
)
    requires
        call_ensures(factory_kind, (iid,), kind),
    ensures
        iid is None ==> kind is None,
        iid matches Some(name) ==> {
            &&& kind == Some(FactoryKind::Raw) <==> name@ == raw_name()
            &&& kind == Some(FactoryKind::Gamepad) <==> name@ == gamepad_name()
            &&& kind == Some(FactoryKind::Gamepad2) <==> name@ == gamepad2_name()
        },
{
    if let Some(name) = iid {
        lemma_names();
        assert(name@ =~= name@.take(8) + name@.skip(8));
        if qwords(name@) == qwords(raw_name()) {
            lemma_word_tells_its_bytes(name@.take(8), raw_name().take(8));
            lemma_word_tells_its_bytes(name@.skip(8), raw_name().skip(8));
            assert(raw_name() =~= raw_name().take(8) + raw_name().skip(8));
        }
        if qwords(name@) == qwords(gamepad_name()) {
            lemma_word_tells_its_bytes(name@.take(8), gamepad_name().take(8));
            lemma_word_tells_its_bytes(name@.skip(8), gamepad_name().skip(8));
            assert(gamepad_name() =~= gamepad_name().take(8) + gamepad_name().skip(8));
        }
        if qwords(name@) == qwords(gamepad2_name()) {
            lemma_word_tells_its_bytes(name@.take(8), gamepad2_name().take(8));
            lemma_word_tells_its_bytes(name@.skip(8), gamepad2_name().skip(8));
            assert(gamepad2_name() =~= gamepad2_name().take(8) + gamepad2_name().skip(8));
        }
    }
}

/// The name of the raw controller factory, byte by byte.
pub open spec fn raw_name() -> Seq<u8> {
    seq![
        0x92,
        0x07,
        0x8D,
        0xEB,
        0x5A,
        0xE9,
        0x19,
        0x4B,
        0xAF,
        0xC7,
        0x0A,
        0x59,
        0xF8,
        0xBF,
        0x75,
        0x9E,
    ]
}

/// The name of the gamepad factory, byte by byte.
pub open spec fn gamepad_name() -> Seq<u8> {
    seq![
        0x29,
        0xE5,
        0xBC,
        0x8B,
        0x9C,
        0xD4,
        0xE9,
        0x39,
        0x95,
        0x60,
        0xE4,
        0x7D,
        0xDE,
        0x96,
        0xB7,
        0xC8,
    ]
}

/// The name of the second gamepad factory, byte by byte.
pub open spec fn gamepad2_name() -> Seq<u8> {
    seq![
        0xC5,
        0x6D,
        0x67,
        0x42,
        0x56,
        0x08,
        0xC4,
        0x47,
        0x92,
        0x13,
        0xB3,
        0x95,
        0x50,
        0x4C,
        0x3A,
        0x3C,
    ]
}

/// The words of the three names.
proof fn lemma_names()
    ensures
        qwords(raw_name()) == (QWORD_RAW.0 as int, QWORD_RAW.1 as int),
        qwords(gamepad_name()) == (QWORD_GAMEPAD.0 as int, QWORD_GAMEPAD.1 as int),
        qwords(gamepad2_name()) == (QWORD_GAMEPAD2.0 as int, QWORD_GAMEPAD2.1 as int),
{
    assert(raw_name().take(8) =~= seq![0x92, 0x07, 0x8D, 0xEB, 0x5A, 0xE9, 0x19, 0x4B]);
    assert(raw_name().skip(8) =~= seq![0xAF, 0xC7, 0x0A, 0x59, 0xF8, 0xBF, 0x75, 0x9E]);
    assert(gamepad_name().take(8) =~= seq![0x29, 0xE5, 0xBC, 0x8B, 0x9C, 0xD4, 0xE9, 0x39]);
    assert(gamepad_name().skip(8) =~= seq![0x95, 0x60, 0xE4, 0x7D, 0xDE, 0x96, 0xB7, 0xC8]);
    assert(gamepad2_name().take(8) =~= seq![0xC5, 0x6D, 0x67, 0x42, 0x56, 0x08, 0xC4, 0x47]);
    assert(gamepad2_name().skip(8) =~= seq![0x92, 0x13, 0xB3, 0x95, 0x50, 0x4C, 0x3A, 0x3C]);
}

/// A factory that the game got is looked at as what its name says; one that it
/// did not get is not looked at.
pub proof fn law_got_factory_is_looked_at(
    hr: i32,
    iid: Option<&[u8; 16]>,
    got: bool,
    kind: Option<FactoryKind>,
    named: Option<FactoryKind>,
)
    requires
        call_ensures(after_ro_get, (hr, iid, got), kind),
        call_ensures(factory_kind, (iid,), named),
    ensures
        hr >= 0 && got ==> kind == named,
        hr < 0 || !got ==> kind is None,
{
}

/// Of a gamepad's reading the eight bytes of its time stay, the 56 after them
/// are zero, and what lies behind is untouched.
pub proof fn law_gamepad_reading_is_emptied(buf: &mut [u8], i: int)
    requires
        call_ensures(empty_gamepad_reading, (buf,), ()),
        0 <= i < buf@.len(),
    ensures
        final(buf)@.len() == old(buf)@.len(),
        i < 8 || i >= 64 ==> final(buf)@[i] == old(buf)@[i],
        8 <= i < 64 ==> final(buf)@[i] == 0,
{
}

/// Of a raw controller's reading the first buttons and the first switches are
/// zero, each as many as are asked for, and what lies behind is untouched.
pub proof fn law_raw_reading_is_emptied(
    buttons: &mut [u8],
    button_n: u32,
    switches: &mut [u32],
    switch_n: u32,
    i: int,
    j: int,
)
    requires
        call_ensures(empty_raw_reading, (buttons, button_n, switches, switch_n), ()),
        0 <= i < buttons@.len(),
        0 <= j < switches@.len(),
    ensures
        final(buttons)@.len() == old(buttons)@.len(),
        final(switches)@.len() == old(switches)@.len(),
        i < button_n ==> final(buttons)@[i] == 0,
        i >= button_n ==> final(buttons)@[i] == old(buttons)@[i],
        j < switch_n ==> final(switches)@[j] == 0,
        j >= switch_n ==> final(switches)@[j] == old(switches)@[j],
{
}

/// A found detour is one of the list at the address, before which the list
/// holds none there.
proof fn lemma_from_at(hooks: Seq<FromHook>, address: usize)
    ensures
        has_from(hooks, address) ==> from_at(hooks, address) is Some,
        from_at(hooks, address) matches Some(hook) ==> hook.address == address && exists|i: int|
            0 <= i < hooks.len() && #[trigger] hooks[i] == hook && (forall|k: int|
                0 <= k < i ==> (#[trigger] hooks[k]).address != address),
    decreases hooks.len(),
{
    if hooks.len() > 0 {
        let rest = hooks.drop_first();
        if hooks.first().address == address {
            assert(hooks[0] == hooks.first());
        } else {
            lemma_from_at(rest, address);
            if has_from(hooks, address) {
                let i = choose|i: int| 0 <= i < hooks.len() && #[trigger] hooks[i].address == address;
                assert(rest[i - 1] == hooks[i]);
            }
            if let Some(hook) = from_at(rest, address) {
                let i = choose|i: int|
                    0 <= i < rest.len() && #[trigger] rest[i] == hook && (forall|k: int|
                        0 <= k < i ==> (#[trigger] rest[k]).address != address);
                assert(hooks[i + 1] == hook);
                assert forall|k: int| 0 <= k < i + 1 implies (#[trigger] hooks[k]).address
                    != address by {
                    if k > 0 {
                        assert(rest[k - 1] == hooks[k]);
                    }
                }
            }
        }
    }
}

/// Controllers are made by the real function behind a detour of the factory:
/// one at the gamepad's place before one at the raw controller's. Where neither
/// is detoured the first detour stands in; without any there is none.
pub proof fn law_controllers_are_made_by_their_factory(
    hooks: ReadingHooks,
    gamepad_slot: Option<usize>,
    raw_slot: Option<usize>,
    found: Option<(usize, FactoryKind)>,
)
    requires
        call_ensures(ReadingHooks::lookup_from, (&hooks, gamepad_slot, raw_slot), found),
    ensures
        found is Some <==> hooks.from_ctrl@.len() > 0,
        found is Some ==> exists|i: int|
            0 <= i < hooks.from_ctrl@.len() && found == Some(
                ((#[trigger] hooks.from_ctrl@[i]).original, hooks.from_ctrl@[i].kind),
            ) && (if gamepad_slot is Some && has_from(hooks.from_ctrl@, gamepad_slot->0) {
                hooks.from_ctrl@[i].address == gamepad_slot->0
            } else if raw_slot is Some && has_from(hooks.from_ctrl@, raw_slot->0) {
                hooks.from_ctrl@[i].address == raw_slot->0
            } else {
                i == 0
            }),
{
    let list = hooks.from_ctrl@;
    if gamepad_slot is Some {
        lemma_from_at(list, gamepad_slot->0);
    }
    if raw_slot is Some {
        lemma_from_at(list, raw_slot->0);
    }
    if list.len() > 0 {
        let hook = hooks.maker(gamepad_slot, raw_slot)->0;
        assert(exists|i: int| 0 <= i < list.len() && #[trigger] list[i] == hook) by {
            assert(list[0] == list[0]);
        }
        let first = list[0];
    }
}

/// The function of a factory that makes controllers is detoured once, under the
/// factory's own kind; a failure, or a factory without one, leaves nothing. The
/// readings of controllers are not touched.
pub proof fn law_factory_is_detoured_once<F: FnOnce(usize) -> Option<usize>>(
    hooks: &mut ReadingHooks,
    kind: FactoryKind,
    function: Option<usize>,
    attach: F,
)
    requires
        call_ensures(ReadingHooks::attach_from_ctrl::<F>, (hooks, kind, function, attach), ()),
    ensures
        final(hooks).gamepad == old(hooks).gamepad && final(hooks).raw == old(hooks).raw,
        function is None ==> final(hooks).from_ctrl@ == old(hooks).from_ctrl@,
        function is Some && (exists|i: int|
            0 <= i < old(hooks).from_ctrl@.len() && (#[trigger] old(hooks).from_ctrl@[i]).address
                == function->0) ==> final(hooks).from_ctrl@ == old(hooks).from_ctrl@,
        function is Some && (forall|i: int|
            0 <= i < old(hooks).from_ctrl@.len() ==> (#[trigger] old(hooks).from_ctrl@[i]).address
                != function->0) ==> exists|made: Option<usize>| #[trigger]
            call_ensures(attach, (function->0,), made) && final(hooks).from_ctrl@ == (if made
                is Some {
                old(hooks).from_ctrl@.push(
                    FromHook { address: function->0, kind, original: made->0 },
                )
            } else {
                old(hooks).from_ctrl@
            }),
{
    if function is Some && (forall|i: int|
        0 <= i < old(hooks).from_ctrl@.len() ==> (#[trigger] old(hooks).from_ctrl@[i]).address
            != function->0) {
        assert(!has_from(old(hooks).from_ctrl@, function->0));
        let made = choose|made: Option<usize>| #[trigger]
            call_ensures(attach, (function->0,), made) && final(hooks).from_ctrl@ == with_from(
                old(hooks).from_ctrl@,
                function->0,
                kind,
                made,
            );
        assert(call_ensures(attach, (function->0,), made));
    }
}

/// The function that makes controllers stands at place 11 of the raw
/// controllers' factory and at place 6 of the second one of gamepads; the first
/// one of gamepads has none and is left alone.
pub proof fn law_factories_are_looked_at_in_their_places<
    S: FnOnce(usize) -> Option<usize>,
    F: FnOnce(usize) -> Option<usize>,
>(hooks: &mut ReadingHooks, kind: FactoryKind, slot: S, attach: F)
    requires
        call_ensures(ReadingHooks::hook_known::<S, F>, (hooks, kind, slot, attach), ()),
    ensures
        final(hooks).gamepad == old(hooks).gamepad && final(hooks).raw == old(hooks).raw,
        kind is Gamepad ==> final(hooks).from_ctrl@ == old(hooks).from_ctrl@,
        kind is Raw ==> exists|function: Option<usize>| #[trigger]
            call_ensures(slot, (11usize,), function) && from_attached(
                old(hooks).from_ctrl@,
                function,
                kind,
                attach,
                final(hooks).from_ctrl@,
            ),
        kind is Gamepad2 ==> exists|function: Option<usize>| #[trigger]
            call_ensures(slot, (6usize,), function) && from_attached(
                old(hooks).from_ctrl@,
                function,
                kind,
                attach,
                final(hooks).from_ctrl@,
            ),
{
}

/// The reading of a controller is detoured in the list of its own factory. A
/// real function that is kept there is not detoured again; another is added
/// behind those that are kept, unless the detour fails.
pub proof fn law_reading_is_detoured_for_its_factory<F: FnOnce(usize) -> Option<usize>>(
    hooks: &mut ReadingHooks,
    kind: FactoryKind,
    function: Option<usize>,
    attach: F,
)
    requires
        call_ensures(ReadingHooks::attach_reading::<F>, (hooks, kind, function, attach), ()),
    ensures
        final(hooks).from_ctrl == old(hooks).from_ctrl,
        kind is Raw ==> final(hooks).gamepad == old(hooks).gamepad,
        !(kind is Raw) ==> final(hooks).raw == old(hooks).raw,
        ({
            let before = if kind is Raw {
                old(hooks).raw@
            } else {
                old(hooks).gamepad@
            };
            let after = if kind is Raw {
                final(hooks).raw@
            } else {
                final(hooks).gamepad@
            };
            &&& function is None || before.contains(function->0) ==> after == before
            &&& function is Some && !before.contains(function->0) ==> exists|made: Option<usize>|
                #[trigger]
                call_ensures(attach, (function->0,), made) && after == (if made is Some {
                    before.push(made->0)
                } else {
                    before
                })
        }),
{
    let before = old(hooks).readers(kind);
    if function is Some && !before.contains(function->0) {
        let made = choose|made: Option<usize>| #[trigger]
            call_ensures(attach, (function->0,), made) && final(hooks).readers(kind)
                == with_reading(before, function->0, made);
        assert(call_ensures(attach, (function->0,), made));
    }
}

/// A controller that came out of a factory is detoured as one of that factory,
/// if the call succeeded and there is a place for it. Without a detour the
/// call fails with 0x80004005.
pub proof fn law_made_controller_is_detoured<C: FnOnce(usize) -> (i32, bool)>(
    hooks: ReadingHooks,
    gamepad_slot: Option<usize>,
    raw_slot: Option<usize>,
    call: C,
    outcome: (i32, Option<FactoryKind>),
    found: Option<(usize, FactoryKind)>,
)
    requires
        call_ensures(
            ReadingHooks::from_ctrl::<C>,
            (&hooks, gamepad_slot, raw_slot, call),
            outcome,
        ),
        call_ensures(ReadingHooks::lookup_from, (&hooks, gamepad_slot, raw_slot), found),
    ensures
        found is None ==> outcome.0 == 0x8000_4005 - 0x1_0000_0000 && outcome.1 is None,
        found matches Some(behind) ==> exists|answer: (i32, bool)| #[trigger]
            call_ensures(call, (behind.0,), answer) && outcome.0 == answer.0 && outcome.1 == (
            if answer.0 >= 0 && answer.1 {
                Some(behind.1)
            } else {
                None
            }),
{
    if let Some(behind) = found {
        let answer = choose|answer: (i32, bool)| #[trigger]
            call_ensures(call, (hooks.maker(gamepad_slot, raw_slot)->0.original,), answer)
                && outcome.0 == answer.0 && outcome.1 == if answer.0 >= 0 && answer.1 {
                Some(hooks.maker(gamepad_slot, raw_slot)->0.kind)
            } else {
                None
            };
        assert(call_ensures(call, (behind.0,), answer));
    }
}

/// A controller is read by the first real function. Its reading is emptied
/// exactly if it succeeded while the overlay is interactive; without a real
/// function the reading fails with 0x80004005.
pub proof fn law_readings_are_emptied_while_interactive<C: FnOnce(usize) -> i32>(
    originals: Vec<usize>,
    interactive: bool,
    call: C,
    outcome: (i32, bool),
)
    requires
        call_ensures(read_controller::<C>, (&originals, interactive, call), outcome),
    ensures
        originals@.len() == 0 ==> outcome.0 == 0x8000_4005 - 0x1_0000_0000 && !outcome.1,
        originals@.len() > 0 ==> call_ensures(call, (originals@[0],), outcome.0),
        outcome.1 <==> (originals@.len() > 0 && outcome.0 >= 0 && interactive),
{
}

/// Nothing is detoured at first, so no factory is known.
pub proof fn law_no_factory_is_known_at_first(
    hooks: ReadingHooks,
    gamepad_slot: Option<usize>,
    raw_slot: Option<usize>,
    found: Option<(usize, FactoryKind)>,
)
    requires
        call_ensures(ReadingHooks::new, (), hooks),
        call_ensures(ReadingHooks::lookup_from, (&hooks, gamepad_slot, raw_slot), found),
    ensures
        found is None,
        hooks.gamepad@.len() == 0 && hooks.raw@.len() == 0,
{
}

/// Whatever factory a controller came from, its reading is the function of its
/// own table: place 13 for a raw controller, and place 8 for a gamepad.
pub proof fn law_readings_have_their_places(kind: FactoryKind)
    ensures
        kind is Raw ==> reading_slot(kind) == 13,
        !(kind is Raw) ==> reading_slot(kind) == 8,
{
}

} // verus!
