//! Waiting for the browser to publish a frame.
//!
//! The browser signals a named event after it has published a frame. Before a
//! present that event is polled once, and then waited for, up to a bound that
//! grows with every miss.

use crate::text::push_decimal;
use vstd::prelude::*;

verus! {

/// A non-empty value of this environment variable turns the wait off.
pub const ENV_DISABLE_WAIT_FOR_CEF_FRAME: &'static str = "GLINT_OVERLAY_DISABLE_WAIT_FOR_CEF_FRAME";

/// Longest wait, in milliseconds.
pub const CEF_FRAME_WAIT_CAP_MS: u32 = 50;

/// Name of the event of the process `pid`.
pub fn cef_frame_event_name(pid: u32) -> (name: String)
    ensures
        name@ == "Local\\GlintCefFrame-"@ + crate::text::decimal(pid as nat),
{
    let mut name = String::from_str("Local\\GlintCefFrame-");
    push_decimal(&mut name, pid as u64);
    name
}

/// Whether a value of the environment variable turns the wait off.
pub open spec fn disables(env_val: Option<&str>) -> bool {
    env_val matches Some(value) && value@.len() > 0
}

/// Whether a value of the environment variable turns the wait off.
pub fn cef_frame_wait_disabled(env_val: Option<&str>) -> (disabled: bool)
    ensures
        disabled == disables(env_val),
{
    match env_val {
        Some(value) => !value.is_empty(),
        None => false,
    }
}

/// How long the second wait may take.
pub open spec fn second_timeout(adaptive: u32) -> u32 {
    if adaptive < 1 {
        1
    } else if adaptive > CEF_FRAME_WAIT_CAP_MS {
        CEF_FRAME_WAIT_CAP_MS
    } else {
        adaptive
    }
}

/// The bound after a miss: a quarter of what is left to the cap is added, and
/// at least one millisecond.
pub open spec fn grown(adaptive: u32) -> u32 {
    let left = if adaptive < CEF_FRAME_WAIT_CAP_MS {
        CEF_FRAME_WAIT_CAP_MS - adaptive
    } else {
        0
    };
    let step = if left / 4 < 1 { 1 } else { left / 4 };
    if adaptive + step > CEF_FRAME_WAIT_CAP_MS {
        CEF_FRAME_WAIT_CAP_MS
    } else {
        (adaptive + step) as u32
    }
}

/// Polls with `wait(0)`, then waits within the adaptive bound. `wait` takes a
/// timeout in milliseconds and says whether the event was signaled; so does the
/// result. The bound grows when both miss.
pub fn wait_cef_frame_with(mut wait: impl FnMut(u32) -> bool, adaptive_ms: &mut u32) -> (signaled:
    bool)
    requires
        call_requires(wait, (0u32,)),
        call_ensures(wait, (0u32,), false) ==> call_requires(
            wait,
            (second_timeout(*old(adaptive_ms)),),
        ),
        *old(adaptive_ms) < u32::MAX,
    ensures
        exists|polled: bool| #[trigger]
            call_ensures(wait, (0u32,), polled) && (if polled {
                signaled && *final(adaptive_ms) == *old(adaptive_ms)
            } else {
                call_ensures(wait, (second_timeout(*old(adaptive_ms)),), signaled)
                    && *final(adaptive_ms) == (if signaled {
                    *old(adaptive_ms)
                } else {
                    grown(*old(adaptive_ms))
                })
            }),
{
    let polled = wait(0);
    if polled {
        return true;
    }
    let adaptive: u32 = *adaptive_ms;
    let timeout: u32 = if adaptive < 1 {
        1
    } else if adaptive > CEF_FRAME_WAIT_CAP_MS {
        CEF_FRAME_WAIT_CAP_MS
    } else {
        adaptive
    };
    let signaled = wait(timeout);
    if !signaled {
        let quarter: u32 = CEF_FRAME_WAIT_CAP_MS.saturating_sub(adaptive) / 4;
        let step: u32 = if quarter < 1 {
            1
        } else {
            quarter
        };
        let sum: u32 = adaptive + step;
        *adaptive_ms = if sum > CEF_FRAME_WAIT_CAP_MS {
            CEF_FRAME_WAIT_CAP_MS
        } else {
            sum
        };
    }
    assert(call_ensures(wait, (0u32,), polled));
    signaled
}

/// The event that tells of a new frame: the one that was opened before, else
/// what `open` opens now. One that is not there yet is looked for again.
pub fn frame_event(slot: &mut Option<isize>, open: impl FnOnce() -> Option<isize>) -> (event:
    Option<isize>)
    requires
        *old(slot) is None ==> call_requires(open, ()),
    ensures
        *final(slot) == event,
        *old(slot) is Some ==> event == *old(slot),
        *old(slot) is None ==> call_ensures(open, (), event),
{
    match *slot {
        Some(event) => Some(event),
        None => {
            let event = open();
            *slot = event;
            event
        },
    }
}

/// Whether `wait` can wait for an event within a timeout.
pub open spec fn may_wait<W: Fn(isize, u32) -> bool>(wait: &W, event: isize, timeout: u32) -> bool {
    call_requires(*wait, (event, timeout))
}

/// Whether `wait` can poll an event and, where that may miss, wait for it within
/// the bound.
pub open spec fn waitable<W: Fn(isize, u32) -> bool>(wait: W, event: isize, adaptive: u32) -> bool {
    &&& call_requires(wait, (event, 0u32))
    &&& call_ensures(wait, (event, 0u32), false) ==> call_requires(
        wait,
        (event, second_timeout(adaptive)),
    )
}

/// Waits for the next frame before a present, unless that is switched off or
/// nobody announces frames. `wait` waits for an event within a timeout. The
/// result tells whether the event was signaled, where it was waited for.
pub fn wait_for_cef_frame<W: Fn(isize, u32) -> bool>(
    env_val: Option<&str>,
    slot: &mut Option<isize>,
    open: impl FnOnce() -> Option<isize>,
    wait: &W,
    adaptive_ms: &mut u32,
) -> (waited: Option<bool>)
    requires
        !disables(env_val) && *old(slot) is None ==> call_requires(open, ()),
        !disables(env_val) ==> (*old(slot) matches Some(event) ==> waitable(
            *wait,
            event,
            *old(adaptive_ms),
        )),
        !disables(env_val) && *old(slot) is None ==> forall|event: isize|
            #![trigger call_ensures(open, (), Some(event))]
            call_ensures(open, (), Some(event)) ==> waitable(*wait, event, *old(adaptive_ms)),
        *old(adaptive_ms) < u32::MAX,
    ensures
        disables(env_val) ==> waited is None && *final(slot) == *old(slot) && *final(adaptive_ms)
            == *old(adaptive_ms),
        !disables(env_val) && *old(slot) is Some ==> *final(slot) == *old(slot),
        !disables(env_val) && *old(slot) is None ==> call_ensures(open, (), *final(slot)),
        !disables(env_val) && *final(slot) is None ==> waited is None && *final(adaptive_ms)
            == *old(adaptive_ms),
        !disables(env_val) && *final(slot) is Some ==> waited is Some && exists|polled: bool|
            #[trigger]
            call_ensures(*wait, ((*final(slot))->0, 0u32), polled) && (if polled {
                waited->0 && *final(adaptive_ms) == *old(adaptive_ms)
            } else {
                call_ensures(
                    *wait,
                    ((*final(slot))->0, second_timeout(*old(adaptive_ms))),
                    waited->0,
                ) && *final(adaptive_ms) == (if waited->0 {
                    *old(adaptive_ms)
                } else {
                    grown(*old(adaptive_ms))
                })
            }),
{
    if cef_frame_wait_disabled(env_val) {
        return None;
    }
    match frame_event(slot, open) {
        None => None,
        Some(event) => {
            let waiting = |timeout: u32| -> (signaled: bool)
                requires
                    may_wait(wait, event, timeout),
                ensures
                    call_ensures(*wait, (event, timeout), signaled),
                {
                    wait(event, timeout)
                };
            let signaled = wait_cef_frame_with(waiting, adaptive_ms);
            proof {
                let polled = choose|polled: bool| #[trigger]
                    call_ensures(waiting, (0u32,), polled) && (if polled {
                        signaled && *adaptive_ms == *old(adaptive_ms)
                    } else {
                        call_ensures(waiting, (second_timeout(*old(adaptive_ms)),), signaled)
                            && *adaptive_ms == (if signaled {
                            *old(adaptive_ms)
                        } else {
                            grown(*old(adaptive_ms))
                        })
                    });
                assert(call_ensures(*wait, (event, 0u32), polled));
            }
            Some(signaled)
        },
    }
}

/// A bound within the cap grows with every miss until it reaches the cap, and
/// stays there; no wait takes longer than the cap.
pub proof fn law_wait_is_capped(adaptive: u32)
    ensures
        1 <= second_timeout(adaptive) <= CEF_FRAME_WAIT_CAP_MS,
        1 <= grown(adaptive) <= CEF_FRAME_WAIT_CAP_MS,
        adaptive < CEF_FRAME_WAIT_CAP_MS ==> adaptive < grown(adaptive),
        adaptive == CEF_FRAME_WAIT_CAP_MS ==> grown(adaptive) == adaptive,
{
}

/// The event is polled first, without waiting. Where the poll misses, one more wait
/// follows, of at least one and at most fifty milliseconds: as long as the bound says.
/// Where that misses too, the bound grows by a quarter of what is left to fifty, by at
/// least one, and never beyond fifty; else it stays.
pub proof fn law_wait_stays_within_fifty_milliseconds<W: FnMut(u32) -> bool>(
    wait: W,
    adaptive: &mut u32,
    signaled: bool,
)
    requires
        call_ensures(wait_cef_frame_with, (wait, adaptive), signaled),
        *adaptive < u32::MAX,
    ensures
        exists|polled: bool| #[trigger]
            call_ensures(wait, (0u32,), polled) && {
                let timeout: u32 = if *old(adaptive) == 0 {
                    1
                } else if *old(adaptive) > 50 {
                    50
                } else {
                    *old(adaptive)
                };
                &&& polled ==> signaled
                &&& !polled ==> call_ensures(wait, (timeout,), signaled)
            },
        signaled ==> *final(adaptive) == *old(adaptive),
        !signaled && *old(adaptive) <= 46 ==> *final(adaptive) == *old(adaptive) + (50 - *old(
            adaptive,
        )) / 4,
        !signaled && 46 < *old(adaptive) < 50 ==> *final(adaptive) == *old(adaptive) + 1,
        !signaled && *old(adaptive) >= 50 ==> *final(adaptive) == 50,
{
    let polled = choose|polled: bool| #[trigger]
        call_ensures(wait, (0u32,), polled) && (if polled {
            signaled && *final(adaptive) == *old(adaptive)
        } else {
            call_ensures(wait, (second_timeout(*old(adaptive)),), signaled) && *final(adaptive) == (
            if signaled {
                *old(adaptive)
            } else {
                grown(*old(adaptive))
            })
        });
    assert(call_ensures(wait, (0u32,), polled));
}

/// A value of the variable that is not empty turns the wait off: nothing is opened and
/// nothing waited for. An empty one, or none, does not.
pub proof fn law_any_value_turns_the_wait_off<
    O: FnOnce() -> Option<isize>,
    W: Fn(isize, u32) -> bool,
>(
    value: Option<&str>,
    slot: &mut Option<isize>,
    open: O,
    wait: W,
    adaptive: &mut u32,
    waited: Option<bool>,
    disabled: bool,
)
    requires
        call_ensures(cef_frame_wait_disabled, (value,), disabled),
        call_ensures(wait_for_cef_frame, (value, slot, open, &wait, adaptive), waited),
    ensures
        disabled <==> value is Some && (value->0)@.len() > 0,
        disabled ==> waited is None && *final(slot) == *old(slot) && *final(adaptive) == *old(
            adaptive,
        ),
        !disabled ==> (waited is Some <==> *final(slot) is Some),
        !disabled && *old(slot) is Some ==> *final(slot) == *old(slot),
        !disabled && *old(slot) is None ==> call_ensures(open, (), *final(slot)),
        waited is Some ==> exists|polled: bool| #[trigger]
            call_ensures(wait, ((*final(slot))->0, 0u32), polled) && (polled ==> waited->0) && (
            !polled ==> call_ensures(
                wait,
                (
                    (*final(slot))->0,
                    if *old(adaptive) == 0 {
                        1u32
                    } else if *old(adaptive) > 50 {
                        50u32
                    } else {
                        *old(adaptive)
                    },
                ),
                waited->0,
            )),
        waited == Some(false) && *old(adaptive) < 50 ==> *old(adaptive) < *final(adaptive) <= 50,
        waited != Some(false) ==> *final(adaptive) == *old(adaptive),
{
    if waited is Some {
        let polled = choose|polled: bool| #[trigger]
            call_ensures(wait, ((*final(slot))->0, 0u32), polled) && (if polled {
                waited->0 && *final(adaptive) == *old(adaptive)
            } else {
                call_ensures(
                    wait,
                    ((*final(slot))->0, second_timeout(*old(adaptive))),
                    waited->0,
                ) && *final(adaptive) == (if waited->0 {
                    *old(adaptive)
                } else {
                    grown(*old(adaptive))
                })
            });
        assert(call_ensures(wait, ((*final(slot))->0, 0u32), polled));
    }
}

/// An event that was found is kept; one that was not is looked for again.
pub proof fn law_found_event_is_kept<O: FnOnce() -> Option<isize>, P: FnOnce() -> Option<isize>>(
    slot: &mut Option<isize>,
    after: &mut Option<isize>,
    open: O,
    other: P,
    first: Option<isize>,
    second: Option<isize>,
)
    requires
        call_ensures(frame_event, (slot, open), first),
        *after == *final(slot),
        call_ensures(frame_event, (after, other), second),
    ensures
        first is Some ==> second == first,
        *old(slot) is Some ==> first == *old(slot),
        *old(slot) is None ==> call_ensures(open, (), first),
        first is None ==> call_ensures(other, (), second),
        *final(after) == second,
{
}

/// Every process has an event of its own, under the common name and its number.
pub proof fn law_each_process_has_its_own_event(
    pid: u32,
    other: u32,
    name: String,
    another: String,
)
    requires
        call_ensures(cef_frame_event_name, (pid,), name),
        call_ensures(cef_frame_event_name, (other,), another),
    ensures
        name@.take(20) == "Local\\GlintCefFrame-"@,
        crate::text::read(name@.skip(20)) == pid,
        pid != other ==> name@ != another@,
{
    reveal_strlit("Local\\GlintCefFrame-");
    assert(name@.take(20) =~= "Local\\GlintCefFrame-"@);
    assert(name@.skip(20) =~= crate::text::decimal(pid as nat));
    assert(another@.skip(20) =~= crate::text::decimal(other as nat));
    crate::text::lemma_decimal_reads_back(pid as nat);
    crate::text::lemma_decimal_reads_back(other as nat);
}

} // verus!
