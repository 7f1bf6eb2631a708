//! Shift and Tab, the keys that call up the overlay.

use crate::backend::window::input_event::keyboard_overlay_event;
use crate::backend::{Backends, WindowBackend};
use crate::event::{Key, KeyInputState, KeyboardInput, OverlayEvent};
use crate::event_sink::{Delivery, OverlayEventSink, SinkState};
use vstd::prelude::*;

verus! {

/// A key that goes down or up in a window.
pub open spec fn stroke(hwnd: u32, code: u8, state: KeyInputState) -> OverlayEvent {
    crate::backend::window::input_event::keyboard_event(
        hwnd,
        KeyboardInput::Key { key: Key { code, extended: false }, state },
    )
}

/// Shift down, Tab down, Tab up, Shift up.
pub open spec fn shift_tab(hwnd: u32) -> Seq<OverlayEvent> {
    seq![
        stroke(hwnd, 0x10, KeyInputState::Pressed),
        stroke(hwnd, 0x09, KeyInputState::Pressed),
        stroke(hwnd, 0x09, KeyInputState::Released),
        stroke(hwnd, 0x10, KeyInputState::Released),
    ]
}

/// The sink after it has taken a series of events.
pub open spec fn after_all(state: SinkState, events: Seq<OverlayEvent>) -> SinkState
    decreases events.len(),
{
    if events.len() == 0 {
        state
    } else {
        after_all(state, events.drop_last()).after(events.last())
    }
}

/// What the clients get of a series of events.
pub open spec fn all_deliveries(state: SinkState, events: Seq<OverlayEvent>) -> Seq<Delivery>
    decreases events.len(),
{
    if events.len() == 0 {
        Seq::empty()
    } else {
        all_deliveries(state, events.drop_last()) + after_all(state, events.drop_last()).deliveries(
            events.last(),
        )
    }
}

/// A window that Shift and Tab are reported for: one of the known windows, or 0
/// where there is none.
pub open spec fn hotkey_window(windows: Map<u32, WindowBackend>, hwnd: u32) -> bool {
    windows.contains_key(hwnd) || (windows.dom() == Set::<u32>::empty() && hwnd == 0)
}

/// Whether Shift and Tab were reported for a window.
pub open spec fn reported(
    windows: Map<u32, WindowBackend>,
    before: SinkState,
    after: SinkState,
    out: Seq<Delivery>,
) -> bool {
    exists|hwnd: u32| #[trigger]
        hotkey_window(windows, hwnd) && after == after_all(before, shift_tab(hwnd)) && out
            == all_deliveries(before, shift_tab(hwnd))
}

/// Sends a series of events on their way, one after the other.
fn emit_all(sink: &mut OverlayEventSink, events: &Vec<OverlayEvent>) -> (out: Vec<Delivery>)
    ensures
        final(sink)@ == after_all(old(sink)@, events@),
        out@ == all_deliveries(old(sink)@, events@),
{
    let mut out: Vec<Delivery> = Vec::new();
    let mut i: usize = 0;
    let ghost before = sink@;
    assert(events@.take(0) =~= Seq::empty());
    while i < events.len()
        invariant
            i <= events@.len(),
            sink@ == after_all(before, events@.take(i as int)),
            out@ == all_deliveries(before, events@.take(i as int)),
        decreases events@.len() - i,
    {
        let mut more = sink.emit(events[i]);
        out.append(&mut more);
        i += 1;
        proof {
            let taken = events@.take(i as int);
            assert(taken.drop_last() =~= events@.take(i - 1));
            assert(taken.last() == events@[i - 1]);
        }
    }
    assert(events@.take(i as int) =~= events@);
    out
}

/// The events of Shift and Tab in a window.
pub fn shift_tab_events(hwnd: u32) -> (events: Vec<OverlayEvent>)
    ensures
        events@ == shift_tab(hwnd),
{
    let shift = Key { code: 0x10, extended: false };
    let tab = Key { code: 0x09, extended: false };
    let mut events: Vec<OverlayEvent> = Vec::new();
    events.push(
        keyboard_overlay_event(
            hwnd,
            KeyboardInput::Key { key: shift, state: KeyInputState::Pressed },
        ),
    );
    events.push(
        keyboard_overlay_event(
            hwnd,
            KeyboardInput::Key { key: tab, state: KeyInputState::Pressed },
        ),
    );
    events.push(
        keyboard_overlay_event(
            hwnd,
            KeyboardInput::Key { key: tab, state: KeyInputState::Released },
        ),
    );
    events.push(
        keyboard_overlay_event(
            hwnd,
            KeyboardInput::Key { key: shift, state: KeyInputState::Released },
        ),
    );
    assert(events@ =~= shift_tab(hwnd));
    events
}

/// Reports Shift and Tab for one of the windows.
pub fn emit_shift_tab(backends: &Backends, sink: &mut OverlayEventSink) -> (out: Vec<Delivery>)
    ensures
        reported(backends@, old(sink)@, final(sink)@, out@),
{
    let ids = backends.iter();
    let mut hwnd: u32 = 0;
    if ids.len() > 0 {
        hwnd = ids[0];
        assert(ids@.contains(hwnd));
        assert(ids@.to_set().contains(hwnd));
    } else {
        assert(ids@.to_set() =~= Set::<u32>::empty());
    }
    assert(hotkey_window(backends@, hwnd));
    emit_all(sink, &shift_tab_events(hwnd))
}

/// Whether a held chord is newly held.
pub open spec fn rises(was: bool, held: bool) -> bool {
    held && !was
}

/// Notes whether the chord is held, and reports it when it newly is.
pub fn note_chord(
    was_held: &mut bool,
    held: bool,
    backends: &Backends,
    sink: &mut OverlayEventSink,
) -> (out: Vec<Delivery>)
    ensures
        *final(was_held) == held,
        rises(*old(was_held), held) ==> reported(backends@, old(sink)@, final(sink)@, out@),
        !rises(*old(was_held), held) ==> final(sink)@ == old(sink)@ && out@.len() == 0,
{
    let was = *was_held;
    *was_held = held;
    if !held || was {
        return Vec::new();
    }
    emit_shift_tab(backends, sink)
}

/// How often a series of readings reports the chord.
pub open spec fn reports(was: bool, readings: Seq<bool>) -> nat
    decreases readings.len(),
{
    if readings.len() == 0 {
        0
    } else {
        (if rises(was, readings.first()) {
            1nat
        } else {
            0nat
        }) + reports(readings.first(), readings.drop_first())
    }
}

/// However often a chord is read while it is held, it is reported once if it was
/// not held before, and else not at all.
pub proof fn law_held_chord_is_reported_once(was: bool, readings: Seq<bool>)
    requires
        readings.len() > 0,
        forall|i: int| 0 <= i < readings.len() ==> readings[i],
    ensures
        reports(was, readings) == if was {
            0nat
        } else {
            1nat
        },
    decreases readings.len(),
{
    let rest = readings.drop_first();
    if rest.len() > 0 {
        law_held_chord_is_reported_once(true, rest);
    }
    assert(readings[0]);
    reveal_with_fuel(reports, 2);
}

/// The chord reads as typed: Shift goes down, Tab goes down and comes up, and
/// Shift comes up, all in the window that it is reported for.
pub proof fn law_chord_is_typed_in_order(hwnd: u32, events: Vec<OverlayEvent>)
    requires
        call_ensures(shift_tab_events, (hwnd,), events),
    ensures
        events@.len() == 4,
        forall|i: int|
            0 <= i < 4 ==> #[trigger] events@[i] == (OverlayEvent::Window {
                id: hwnd,
                event: crate::event::WindowEvent::Input(
                    crate::event::InputEvent::Keyboard(
                        KeyboardInput::Key {
                            key: Key {
                                code: if i == 0 || i == 3 {
                                    0x10
                                } else {
                                    0x09
                                },
                                extended: false,
                            },
                            state: if i < 2 {
                                KeyInputState::Pressed
                            } else {
                                KeyInputState::Released
                            },
                        },
                    ),
                ),
            }),
{
}

/// A chord is reported when it becomes held, and in no other case; what was
/// read is what the next reading is compared with.
pub proof fn law_chord_is_reported_when_it_rises(
    was_held: &mut bool,
    held: bool,
    backends: Backends,
    sink: &mut OverlayEventSink,
    out: Vec<Delivery>,
)
    requires
        call_ensures(note_chord, (was_held, held, &backends, sink), out),
    ensures
        *final(was_held) == held,
        !held ==> out@.len() == 0 && final(sink)@ == old(sink)@,
        *old(was_held) ==> out@.len() == 0 && final(sink)@ == old(sink)@,
        held && !*old(was_held) ==> exists|hwnd: u32|
            #![trigger shift_tab(hwnd)]
            (backends@.contains_key(hwnd) || (hwnd == 0 && forall|id: u32|
                !backends@.contains_key(id))) && out@ == all_deliveries(
                old(sink)@,
                shift_tab(hwnd),
            ) && final(sink)@ == after_all(old(sink)@, shift_tab(hwnd)),
{
    if held && !*old(was_held) {
        let hwnd = choose|hwnd: u32| #[trigger]
            hotkey_window(backends@, hwnd) && final(sink)@ == after_all(
                old(sink)@,
                shift_tab(hwnd),
            ) && out@ == all_deliveries(old(sink)@, shift_tab(hwnd));
        assert(hotkey_window(backends@, hwnd));
        if !backends@.contains_key(hwnd) {
            assert forall|id: u32| !backends@.contains_key(id) by {
                assert(!backends@.dom().contains(id));
            }
        }
        let typed = shift_tab(hwnd);
    }
}

/// Where windows are known the chord is reported for one of them.
pub proof fn law_chord_goes_to_a_known_window(
    backends: Backends,
    sink: &mut OverlayEventSink,
    out: Vec<Delivery>,
    known: u32,
)
    requires
        call_ensures(emit_shift_tab, (&backends, sink), out),
        backends@.contains_key(known),
    ensures
        exists|hwnd: u32|
            #![trigger shift_tab(hwnd)]
            backends@.contains_key(hwnd) && out@ == all_deliveries(old(sink)@, shift_tab(hwnd))
                && final(sink)@ == after_all(old(sink)@, shift_tab(hwnd)),
{
    let hwnd = choose|hwnd: u32| #[trigger]
        hotkey_window(backends@, hwnd) && final(sink)@ == after_all(
            old(sink)@,
            shift_tab(hwnd),
        ) && out@ == all_deliveries(old(sink)@, shift_tab(hwnd));
    assert(hotkey_window(backends@, hwnd));
    assert(backends@.dom().contains(known));
    let typed = shift_tab(hwnd);
}

/// A series of events is what its parts are, one after the other.
pub proof fn law_events_are_taken_in_order(
    state: SinkState,
    first: Seq<OverlayEvent>,
    next: OverlayEvent,
)
    ensures
        after_all(state, Seq::empty()) == state,
        all_deliveries(state, Seq::empty()) == Seq::<Delivery>::empty(),
        after_all(state, first.push(next)) == after_all(state, first).after(next),
        all_deliveries(state, first.push(next)) == all_deliveries(state, first) + after_all(
            state,
            first,
        ).deliveries(next),
{
    assert(first.push(next).drop_last() =~= first);
}

} // verus!
