//! Sampling a shared texture under its keyed mutex, and small helpers.
//!
//! The mutex of a shared texture is tried without waiting. A texture whose
//! mutex was taken stays locked until the game's own present is through.

use crate::event::GpuLuid;
use crate::geometry::Rect;
use vstd::prelude::*;

verus! {

/// The keyed mutex is not waited for.
pub const KEYED_MUTEX_TIMEOUT_MS: u32 = 0;

/// Acquiring succeeded, though the previous owner never released.
pub const WAIT_ABANDONED: i32 = 0x80;

/// Which texture to draw.
#[derive(Clone, Copy, Debug, PartialEq, Eq, Structural)]
pub enum MailboxSample {
    /// The shared texture itself.
    Live,
    /// The last complete copy of it.
    Cache,
    /// None.
    Skip,
}

/// Draws the shared texture while it is locked, else the last copy, if any.
pub fn mailbox_sample(lock_held: bool, has_cache: bool) -> (sample: MailboxSample)
    ensures
        sample == sampled(lock_held, has_cache),
{
    if lock_held {
        MailboxSample::Live
    } else if has_cache {
        MailboxSample::Cache
    } else {
        MailboxSample::Skip
    }
}

/// What `mailbox_sample` picks.
pub open spec fn sampled(lock_held: bool, has_cache: bool) -> MailboxSample {
    if lock_held {
        MailboxSample::Live
    } else if has_cache {
        MailboxSample::Cache
    } else {
        MailboxSample::Skip
    }
}

/// What an attempt to take the mutex came to: a negative result is a failure,
/// success and an abandoned mutex mean that it is held, anything else that it
/// is not.
pub open spec fn lock_outcome(hr: i32) -> Result<bool, i32> {
    if hr < 0 {
        Err(hr)
    } else {
        Ok(hr == 0 || hr == WAIT_ABANDONED)
    }
}

/// Reads the result of an attempt to take the mutex.
pub fn keyed_mutex_lock_held(hr: i32) -> (held: Result<bool, i32>)
    ensures
        held == lock_outcome(hr),
{
    if hr < 0 {
        Err(hr)
    } else {
        Ok(hr == 0 || hr == WAIT_ABANDONED)
    }
}

/// How much more often something began than it ended, in a history that holds
/// `true` for each beginning and `false` for each end.
pub open spec fn ongoing(history: Seq<bool>) -> int
    decreases history.len(),
{
    if history.len() == 0 {
        0
    } else {
        ongoing(history.drop_last()) + if history.last() {
            1int
        } else {
            -1int
        }
    }
}

/// Whether nothing ever ended in a history that had not begun before.
pub open spec fn orderly(history: Seq<bool>) -> bool
    decreases history.len(),
{
    history.len() == 0 || orderly(history.drop_last()) && ongoing(history) >= 0
}

/// Whether a lock is to be taken: there is one, and it is not held.
pub open spec fn to_take(held: Seq<usize>, mutex: Option<usize>) -> bool {
    mutex is Some && !held.contains(mutex->0)
}

/// The mutexes that are held until the present is through, by address.
pub struct HeldMutexes {
    held: Vec<usize>,
}

impl View for HeldMutexes {
    type V = Seq<usize>;

    closed spec fn view(&self) -> Seq<usize> {
        self.held@
    }
}

impl HeldMutexes {
    /// None is held.
    pub fn new() -> (held: HeldMutexes)
        ensures
            held@ == Seq::<usize>::empty(),
    {
        HeldMutexes { held: Vec::new() }
    }

    /// Whether a mutex is held.
    pub fn keyed_mutex_already_held(&self, mutex: usize) -> (held: bool)
        ensures
            held == self@.contains(mutex),
    {
        let mut i: usize = 0;
        while i < self.held.len()
            invariant
                i <= self.held@.len(),
                forall|j: int| 0 <= j < i ==> self.held@[j] != mutex,
            decreases self.held@.len() - i,
        {
            if self.held[i] == mutex {
                assert(self@[i as int] == mutex);
                return true;
            }
            i += 1;
        }
        false
    }

    /// Keeps a mutex held.
    pub fn park_keyed_mutex(&mut self, mutex: usize)
        ensures
            final(self)@ == old(self)@.push(mutex),
    {
        self.held.push(mutex);
    }

    /// Hands out every held mutex for release, first taken first.
    pub fn release_keyed_mutex_holds(&mut self) -> (released: Vec<usize>)
        ensures
            released@ == old(self)@,
            final(self)@ == Seq::<usize>::empty(),
    {
        let mut released: Vec<usize> = Vec::new();
        std::mem::swap(&mut self.held, &mut released);
        released
    }
}

/// Runs the game's own present and then hands out what is to be released.
pub fn after_original_present<R>(
    holds: &mut HeldMutexes,
    present: impl FnOnce() -> R,
) -> (done: (R, Vec<usize>))
    requires
        call_requires(present, ()),
    ensures
        call_ensures(present, (), done.0),
        done.1@ == old(holds)@,
        final(holds)@ == Seq::<usize>::empty(),
{
    let result = present();
    let released = holds.release_keyed_mutex_holds();
    (result, released)
}

/// Runs `f` under the mutex, if there is one. Where somebody else holds the lock
/// `f` runs too, without it; where taking it fails outright `f` does not run, and
/// there is no result. The second part of the result says whether the mutex is to
/// be released now.
pub fn with_keyed_mutex<R>(
    mutex: Option<usize>,
    acquire: impl FnOnce(usize, u32) -> i32,
    f: impl FnOnce() -> R,
) -> (done: Result<Option<(R, bool)>, i32>)
    requires
        mutex matches Some(address) ==> call_requires(acquire, (address, KEYED_MUTEX_TIMEOUT_MS)),
        mutex is None ==> call_requires(f, ()),
        mutex matches Some(address) ==> forall|hr: i32| #[trigger]
            call_ensures(acquire, (address, KEYED_MUTEX_TIMEOUT_MS), hr) && lock_outcome(hr) is Ok
                ==> call_requires(f, ()),
    ensures
        match mutex {
            None => done matches Ok(Some((r, release))) && call_ensures(f, (), r) && !release,
            Some(address) => exists|hr: i32| #[trigger]
                call_ensures(acquire, (address, KEYED_MUTEX_TIMEOUT_MS), hr) && match lock_outcome(
                    hr,
                ) {
                    Err(_) => done == Ok::<Option<(R, bool)>, i32>(None),
                    Ok(held) => done matches Ok(Some((r, release))) && call_ensures(f, (), r)
                        && release == held,
                },
        },
{
    match mutex {
        None => Ok(Some((f(), false))),
        Some(address) => {
            let hr: i32 = acquire(address, KEYED_MUTEX_TIMEOUT_MS);
            assert(call_ensures(acquire, (address, KEYED_MUTEX_TIMEOUT_MS), hr));
            match keyed_mutex_lock_held(hr) {
                Err(_) => Ok(None),
                Ok(held) => Ok(Some((f(), held))),
            }
        },
    }
}

/// Runs `f` and tells it whether the shared texture is locked. A lock that was
/// taken stays until the present is through; one that is still there is not
/// taken again. Where taking it fails outright `f` does not run, and there is no
/// result.
pub fn with_keyed_mutex_sampled<R>(
    holds: &mut HeldMutexes,
    mutex: Option<usize>,
    acquire: impl FnOnce(usize, u32) -> i32,
    f: impl FnOnce(bool) -> R,
) -> (done: Result<Option<R>, i32>)
    requires
        to_take(old(holds)@, mutex) ==> call_requires(
            acquire,
            (mutex->0, KEYED_MUTEX_TIMEOUT_MS),
        ),
        !to_take(old(holds)@, mutex) ==> call_requires(f, (true,)),
        to_take(old(holds)@, mutex) ==> forall|hr: i32| #[trigger]
            call_ensures(acquire, (mutex->0, KEYED_MUTEX_TIMEOUT_MS), hr) && lock_outcome(hr) is Ok
                ==> call_requires(f, (lock_outcome(hr)->Ok_0,)),
    ensures
        match mutex {
            None => final(holds)@ == old(holds)@ && (done matches Ok(Some(r)) && call_ensures(
                f,
                (true,),
                r,
            )),
            Some(address) => if old(holds)@.contains(address) {
                final(holds)@ == old(holds)@ && (done matches Ok(Some(r)) && call_ensures(
                    f,
                    (true,),
                    r,
                ))
            } else {
                exists|hr: i32| #[trigger]
                    call_ensures(acquire, (address, KEYED_MUTEX_TIMEOUT_MS), hr)
                        && match lock_outcome(hr) {
                        Err(_) => done == Ok::<Option<R>, i32>(None) && final(holds)@ == old(
                            holds,
                        )@,
                        Ok(held) => {
                            &&& done matches Ok(Some(r))
                            &&& call_ensures(f, (held,), r)
                            &&& final(holds)@ == (if held {
                                old(holds)@.push(address)
                            } else {
                                old(holds)@
                            })
                        },
                    }
            },
        },
{
    match mutex {
        None => Ok(Some(f(true))),
        Some(address) => {
            if holds.keyed_mutex_already_held(address) {
                return Ok(Some(f(true)));
            }
            let hr: i32 = acquire(address, KEYED_MUTEX_TIMEOUT_MS);
            assert(call_ensures(acquire, (address, KEYED_MUTEX_TIMEOUT_MS), hr));
            match keyed_mutex_lock_held(hr) {
                Err(_) => Ok(None),
                Ok(held) => {
                    if held {
                        holds.park_keyed_mutex(address);
                    }
                    Ok(Some(f(held)))
                },
            }
        },
    }
}

/// Size of a window whose client area is `rect`.
pub fn get_client_size(rect: Rect) -> (size: (u32, u32))
    ensures
        size == (rect.right as u32, rect.bottom as u32),
{
    (rect.right as u32, rect.bottom as u32)
}

/// Index of the first adapter with this identifier. An adapter that could not
/// be asked has none.
pub fn find_adapter_by_luid(adapters: &Vec<Option<GpuLuid>>, luid: GpuLuid) -> (found: Option<
    usize,
>)
    ensures
        match found {
            Some(i) => i < adapters@.len() && adapters@[i as int] == Some(luid) && forall|j: int|
                0 <= j < i ==> adapters@[j] != Some(luid),
            None => forall|j: int| 0 <= j < adapters@.len() ==> adapters@[j] != Some(luid),
        },
{
    let mut i: usize = 0;
    while i < adapters.len()
        invariant
            i <= adapters@.len(),
            forall|j: int| 0 <= j < i ==> adapters@[j] != Some(luid),
        decreases adapters@.len() - i,
    {
        if let Some(found) = adapters[i] {
            if found == luid {
                return Some(i);
            }
        }
        i += 1;
    }
    None
}

/// A mutex that was taken for a draw is found held by the next draw.
pub proof fn law_parked_mutex_is_found(holds: Seq<usize>, address: usize)
    ensures
        holds.push(address).contains(address),
{
    assert(holds.push(address)[holds.len() as int] == address);
}

/// The shared texture is drawn while it is locked; else the last copy of it, and where
/// there is none nothing.
pub proof fn law_only_a_locked_texture_is_drawn_live(
    held: bool,
    cached: bool,
    sample: MailboxSample,
)
    requires
        call_ensures(mailbox_sample, (held, cached), sample),
    ensures
        sample is Live <==> held,
        sample is Cache <==> !held && cached,
        sample is Skip <==> !held && !cached,
{
}

/// A mutex is held when taking it answered 0, or 0x80, which is that of one that was
/// abandoned; other answers that are not negative mean that somebody else holds it,
/// negative ones that it failed.
pub proof fn law_answers_tell_whether_the_lock_is_held(hr: i32, held: Result<bool, i32>)
    requires
        call_ensures(keyed_mutex_lock_held, (hr,), held),
    ensures
        hr == 0 || hr == 0x80 ==> held == Ok::<bool, i32>(true),
        hr > 0 && hr != 0x80 ==> held == Ok::<bool, i32>(false),
        hr < 0 ==> held == Err::<bool, i32>(hr),
{
}

/// Work under a mutex never waits for it. It is done where the mutex could be taken,
/// which is then to be released, where somebody else holds it, and where there is none;
/// where taking it failed it is not done.
pub proof fn law_work_runs_unless_the_lock_fails<
    R,
    A: FnOnce(usize, u32) -> i32,
    F: FnOnce() -> R,
>(mutex: Option<usize>, acquire: A, f: F, done: Result<Option<(R, bool)>, i32>)
    requires
        call_ensures(with_keyed_mutex, (mutex, acquire, f), done),
    ensures
        done is Ok,
        mutex is None ==> (done->Ok_0 matches Some((r, release)) && call_ensures(f, (), r)
            && !release),
        mutex matches Some(address) ==> exists|hr: i32| #[trigger]
            call_ensures(acquire, (address, 0u32), hr) && {
                &&& hr < 0 <==> done->Ok_0 is None
                &&& done->Ok_0 matches Some((r, release)) ==> call_ensures(f, (), r) && release
                    == (hr == 0 || hr == 0x80)
            },
{
    if mutex is Some {
        let hr = choose|hr: i32| #[trigger]
            call_ensures(acquire, (mutex->0, KEYED_MUTEX_TIMEOUT_MS), hr) && match lock_outcome(
                hr,
            ) {
                Err(_) => done == Ok::<Option<(R, bool)>, i32>(None),
                Ok(held) => done matches Ok(Some((r, release))) && call_ensures(f, (), r)
                    && release == held,
            };
        assert(call_ensures(acquire, (mutex->0, 0u32), hr));
    }
}

/// A lock that a draw took is still held at the next draw, and handed out once when the
/// present is through, in the order in which locks were taken; then none is held.
pub proof fn law_taken_locks_are_released_after_the_present<
    R,
    A: FnOnce(usize, u32) -> i32,
    F: FnOnce(bool) -> R,
    P: FnOnce() -> i32,
>(
    holds: &mut HeldMutexes,
    last: &mut HeldMutexes,
    mutex: usize,
    acquire: A,
    f: F,
    present: P,
    done: Result<Option<R>, i32>,
    held: bool,
    before: bool,
    through: (i32, Vec<usize>),
    after: bool,
)
    requires
        call_ensures(HeldMutexes::keyed_mutex_already_held, (&*holds, mutex), before),
        call_ensures(with_keyed_mutex_sampled, (holds, Some(mutex), acquire, f), done),
        call_ensures(HeldMutexes::keyed_mutex_already_held, (&*final(holds), mutex), held),
        *last == *final(holds),
        call_ensures(after_original_present, (last, present), through),
        call_ensures(HeldMutexes::keyed_mutex_already_held, (&*final(last), mutex), after),
    ensures
        done is Ok,
        before ==> held && final(holds)@ == old(holds)@ && (done->Ok_0 matches Some(r)
            && call_ensures(f, (true,), r)),
        !before ==> exists|hr: i32| #[trigger]
            call_ensures(acquire, (mutex, 0u32), hr) && {
                &&& hr == 0 || hr == 0x80 ==> held && final(holds)@ == old(holds)@.push(mutex) && (
                done->Ok_0 matches Some(r) && call_ensures(f, (true,), r))
                &&& hr > 0 && hr != 0x80 ==> !held && final(holds)@ == old(holds)@ && (
                done->Ok_0 matches Some(r) && call_ensures(f, (false,), r))
                &&& hr < 0 ==> !held && final(holds)@ == old(holds)@ && done->Ok_0 is None
            },
        call_ensures(present, (), through.0),
        through.1@ == final(holds)@,
        !after,
        final(last)@.len() == 0,
{
    if !before {
        let hr = choose|hr: i32| #[trigger]
            call_ensures(acquire, (mutex, KEYED_MUTEX_TIMEOUT_MS), hr) && match lock_outcome(hr) {
                Err(_) => done == Ok::<Option<R>, i32>(None) && final(holds)@ == old(holds)@,
                Ok(held) => {
                    &&& done matches Ok(Some(r))
                    &&& call_ensures(f, (held,), r)
                    &&& final(holds)@ == (if held {
                        old(holds)@.push(mutex)
                    } else {
                        old(holds)@
                    })
                },
            };
        law_parked_mutex_is_found(old(holds)@, mutex);
        assert(call_ensures(acquire, (mutex, 0u32), hr));
    }
}

/// A texture without a mutex counts as locked.
pub proof fn law_texture_without_a_mutex_counts_as_locked<
    R,
    A: FnOnce(usize, u32) -> i32,
    F: FnOnce(bool) -> R,
>(holds: &mut HeldMutexes, acquire: A, f: F, done: Result<Option<R>, i32>)
    requires
        call_ensures(with_keyed_mutex_sampled, (holds, None::<usize>, acquire, f), done),
    ensures
        done matches Ok(Some(r)) && call_ensures(f, (true,), r),
        final(holds)@ == old(holds)@,
{
}

/// What is parked is released in the order in which it was parked, once.
pub proof fn law_parked_locks_come_out_in_order(
    fresh: HeldMutexes,
    holds: &mut HeldMutexes,
    next: &mut HeldMutexes,
    last: &mut HeldMutexes,
    first: usize,
    second: usize,
    released: Vec<usize>,
)
    requires
        call_ensures(HeldMutexes::new, (), fresh),
        *holds == fresh,
        call_ensures(HeldMutexes::park_keyed_mutex, (holds, first), ()),
        *next == *final(holds),
        call_ensures(HeldMutexes::park_keyed_mutex, (next, second), ()),
        *last == *final(next),
        call_ensures(HeldMutexes::release_keyed_mutex_holds, (last,), released),
    ensures
        released@.len() == 2,
        released@[0] == first,
        released@[1] == second,
        final(last)@.len() == 0,
{
}

/// A client area that starts at the origin is as wide as its right edge and as high as
/// its bottom edge.
pub proof fn law_client_area_is_as_large_as_its_edges(rect: Rect, size: (u32, u32))
    requires
        call_ensures(get_client_size, (rect,), size),
        rect.right >= 0,
        rect.bottom >= 0,
    ensures
        size.0 == rect.right,
        size.1 == rect.bottom,
{
}

/// The adapter that is found has the identifier that was looked for, both halves of it,
/// and is the first that does; where there is one, one is found.
pub proof fn law_adapter_is_found_by_its_identifier(
    adapters: Vec<Option<GpuLuid>>,
    luid: GpuLuid,
    found: Option<usize>,
)
    requires
        call_ensures(find_adapter_by_luid, (&adapters, luid), found),
    ensures
        found is Some <==> exists|i: int|
            0 <= i < adapters@.len() && (#[trigger] adapters@[i] matches Some(adapter)
                && adapter.low == luid.low && adapter.high == luid.high),
        found matches Some(i) ==> i < adapters@.len() && (adapters@[i as int] matches Some(adapter)
            && adapter.low == luid.low && adapter.high == luid.high) && forall|j: int|
            0 <= j < i ==> #[trigger] adapters@[j] != adapters@[i as int],
{
    if exists|i: int|
        0 <= i < adapters@.len() && (#[trigger] adapters@[i] matches Some(adapter) && adapter.low
            == luid.low && adapter.high == luid.high) {
        let i = choose|i: int|
            0 <= i < adapters@.len() && (#[trigger] adapters@[i] matches Some(adapter)
                && adapter.low == luid.low && adapter.high == luid.high);
        assert(adapters@[i] == Some(luid));
    }
}

} // verus!
