//! Command queues of Direct3D 12.
//!
//! The overlay's commands go to the queue that the game presents a buffer with,
//! else to the one that it created the swap chain with.

use crate::int_map::{list_get, list_insert, list_map, list_remove, ListMap, WordTable};
use vstd::prelude::*;

verus! {

/// The queue for a buffer: the one that the game presents it with, else the one
/// that it created the swap chain with.
pub open spec fn picked(mapped: Option<Seq<usize>>, index: u32, wrap: Option<usize>) -> Option<
    usize,
> {
    if mapped is Some && index < (mapped->0).len() && (mapped->0)[index as int] != 0 {
        Some((mapped->0)[index as int])
    } else {
        wrap
    }
}

/// The list behind a reference, if there is one.
pub open spec fn list(slots: Option<&[usize]>) -> Option<Seq<usize>> {
    match slots {
        Some(slots) => Some(slots@),
        None => None,
    }
}

/// Picks the queue for a buffer.
pub fn pick_dx12_overlay_queue(
    mapped: Option<&[usize]>,
    index: u32,
    wrap: Option<usize>,
) -> (queue: Option<usize>)
    ensures
        queue == picked(list(mapped), index, wrap),
{
    if let Some(slots) = mapped {
        if (index as usize) < slots.len() {
            let queue: usize = slots[index as usize];
            if queue != 0 {
                return Some(queue);
            }
        }
    }
    wrap
}

/// The queues of each swap chain: those that its buffers are presented with, and
/// the one that it was created with.
pub struct Queues {
    present: ListMap,
    wrap: WordTable,
}

/// The queues of each swap chain.
pub ghost struct QueueState {
    pub present: Map<usize, Seq<usize>>,
    pub wrap: Map<usize, usize>,
}

impl View for Queues {
    type V = QueueState;

    closed spec fn view(&self) -> QueueState {
        QueueState {
            present: crate::int_map::word_lists(self.present),
            wrap: self.wrap@,
        }
    }
}

impl QueueState {
    /// The queue for a buffer of a swap chain.
    pub open spec fn queue_for(self, swapchain: usize, index: u32) -> Option<usize> {
        picked(self.present.get(swapchain), index, self.wrap.get(swapchain))
    }

    /// The queues without those of a swap chain.
    pub open spec fn without(self, swapchain: usize) -> QueueState {
        QueueState {
            present: self.present.remove(swapchain),
            wrap: self.wrap.remove(swapchain),
        }
    }

    /// The queues after a swap chain's buffers were made anew: those that the
    /// game names are kept; where it names none, the old ones are forgotten, and
    /// where there are no buffers, they stay.
    pub open spec fn resized(
        self,
        swapchain: usize,
        buffer_count: u32,
        present_queue: Option<Seq<usize>>,
    ) -> QueueState {
        match present_queue {
            None => QueueState { present: self.present.remove(swapchain), ..self },
            Some(queues) => if buffer_count == 0 {
                self
            } else {
                QueueState {
                    present: self.present.insert(swapchain, queues.take(buffer_count as int)),
                    ..self
                }
            },
        }
    }
}

impl Queues {
    /// No queues.
    pub fn new() -> (queues: Queues)
        ensures
            queues@ == (QueueState { present: Map::empty(), wrap: Map::empty() }),
    {
        Queues { present: list_map(), wrap: WordTable::new() }
    }

    /// Remembers the queue that a swap chain was created with.
    pub fn store_wrap_queue(&mut self, swapchain: usize, queue: usize)
        ensures
            final(self)@ == (QueueState {
                wrap: old(self)@.wrap.insert(swapchain, queue),
                ..old(self)@
            }),
    {
        let _replaced = self.wrap.insert(swapchain, queue);
    }

    /// The queue that a swap chain was created with.
    pub fn get_wrap_queue(&self, swapchain: usize) -> (queue: Option<usize>)
        ensures
            queue == self@.wrap.get(swapchain),
    {
        self.wrap.get(swapchain)
    }

    /// Forgets the queue that a swap chain was created with.
    pub fn clear_wrap_queue(&mut self, swapchain: usize)
        ensures
            final(self)@ == (QueueState {
                wrap: old(self)@.wrap.remove(swapchain),
                ..old(self)@
            }),
    {
        let _removed = self.wrap.remove(swapchain);
    }

    /// Remembers the queues that the buffers of a swap chain are presented with.
    pub fn store_present_queues(&mut self, swapchain: usize, queues: &[usize])
        ensures
            final(self)@ == (QueueState {
                present: old(self)@.present.insert(swapchain, queues@),
                ..old(self)@
            }),
    {
        let mut copy: Vec<usize> = Vec::new();
        copy.extend_from_slice(queues);
        assert(copy@ =~= queues@);
        list_insert(&mut self.present, swapchain, copy);
    }

    /// The queues that the buffers of a swap chain are presented with.
    pub fn get_present_queues(&self, swapchain: usize) -> (queues: Option<Vec<usize>>)
        ensures
            queues is Some <==> self@.present.contains_key(swapchain),
            queues matches Some(queues) ==> queues@ == self@.present[swapchain],
    {
        list_get(&self.present, swapchain)
    }

    /// Forgets the queues that the buffers of a swap chain are presented with.
    pub fn clear_present_queues(&mut self, swapchain: usize)
        ensures
            final(self)@ == (QueueState {
                present: old(self)@.present.remove(swapchain),
                ..old(self)@
            }),
    {
        list_remove(&mut self.present, swapchain);
    }

    /// Notes the queues that the game names when it makes the buffers of a swap
    /// chain anew. It names one for each buffer, or none.
    pub fn record_resize_buffers1_present_queues(
        &mut self,
        swapchain: usize,
        buffer_count: u32,
        present_queue: Option<&[usize]>,
    )
        requires
            present_queue matches Some(queues) ==> queues@.len() >= buffer_count,
        ensures
            final(self)@ == old(self)@.resized(swapchain, buffer_count, list(present_queue)),
    {
        match present_queue {
            None => self.clear_present_queues(swapchain),
            Some(queues) => {
                if buffer_count == 0 {
                    return ;
                }
                let named = vstd::slice::slice_subrange(queues, 0, buffer_count as usize);
                assert(named@ =~= queues@.take(buffer_count as int));
                self.store_present_queues(swapchain, named);
            },
        }
    }

    /// The queue for a buffer of a swap chain.
    pub fn overlay_queue(&self, swapchain: usize, index: u32) -> (queue: Option<usize>)
        ensures
            queue == self@.queue_for(swapchain, index),
    {
        let wrap = self.get_wrap_queue(swapchain);
        match self.get_present_queues(swapchain) {
            Some(mapped) => pick_dx12_overlay_queue(Some(mapped.as_slice()), index, wrap),
            None => pick_dx12_overlay_queue(None, index, wrap),
        }
    }

    /// Notes a created swap chain. `device_queue` is the queue that it was
    /// created with, if it was one; only swap chains of this version have one
    /// that counts.
    pub fn attach_from_swapchain(
        &mut self,
        disabled: bool,
        has_device: bool,
        swapchain: usize,
        device_queue: Option<usize>,
    )
        ensures
            final(self)@ == if !disabled && has_device && device_queue is Some {
                QueueState {
                    wrap: old(self)@.wrap.insert(swapchain, device_queue->0),
                    ..old(self)@
                }
            } else {
                old(self)@
            },
    {
        if disabled || !has_device {
            return ;
        }
        if let Some(queue) = device_queue {
            self.store_wrap_queue(swapchain, queue);
        }
    }
}

/// Whether a swap chain of this version is drawn in: it is not switched off,
/// there is a queue for its buffer, and that queue takes drawing commands.
pub fn dx12_ready(disabled: bool, queue: Option<usize>, direct: bool) -> (ready: bool)
    ensures
        ready == (!disabled && queue is Some && queue != Some(0usize) && direct),
{
    match queue {
        Some(queue) => !disabled && queue != 0 && direct,
        None => false,
    }
}

/// Whether a setting switches this version off: it starts with `1`.
pub open spec fn switched_off(value: Option<Seq<char>>) -> bool {
    value is Some && (value->0).len() > 0 && (value->0)[0] == '1'
}

/// Whether a setting switches this version off.
pub fn steam_overlay_disable_dx12(value: Option<&str>) -> (off: bool)
    ensures
        off == switched_off(
            match value {
                Some(text) => Some(text@),
                None => None,
            },
        ),
{
    match value {
        Some(text) => text.unicode_len() > 0 && text.get_char(0) == '1',
        None => false,
    }
}

/// The queue that the game named for a buffer counts before the one that the
/// swap chain was created with; making the buffers anew without naming queues
/// leaves the latter.
pub proof fn law_named_queue_counts_first(
    state: QueueState,
    swapchain: usize,
    queues: Seq<usize>,
    buffer_count: u32,
    index: u32,
)
    requires
        buffer_count <= queues.len(),
        index < buffer_count,
        queues[index as int] != 0,
    ensures
        state.resized(swapchain, buffer_count, Some(queues)).queue_for(swapchain, index) == Some(
            queues[index as int],
        ),
        state.resized(swapchain, buffer_count, None).queue_for(swapchain, index)
            == state.wrap.get(swapchain),
{
}

/// A buffer's own queue counts if there is a list that reaches to the buffer
/// and names one there; else the swap chain's does.
pub proof fn law_own_queue_is_picked(
    mapped: Option<&[usize]>,
    index: u32,
    wrap: Option<usize>,
    queue: Option<usize>,
)
    requires
        call_ensures(pick_dx12_overlay_queue, (mapped, index, wrap), queue),
    ensures
        mapped is None ==> queue == wrap,
        mapped matches Some(slots) ==> {
            &&& index >= slots@.len() ==> queue == wrap
            &&& index < slots@.len() && slots@[index as int] == 0 ==> queue == wrap
            &&& index < slots@.len() && slots@[index as int] != 0 ==> queue == Some(
                slots@[index as int],
            )
        },
{
}

/// The queue that a swap chain was created with is told from then on, until it
/// is forgotten; neither touches another swap chain or the buffers' queues.
pub proof fn law_created_queue_is_told_until_forgotten(
    queues: &mut Queues,
    swapchain: usize,
    queue: usize,
    next: &mut Queues,
    later: Queues,
    last: Queues,
    told: Option<usize>,
    gone: Option<usize>,
    other: usize,
    before: Option<usize>,
    after: Option<usize>,
)
    requires
        call_ensures(Queues::store_wrap_queue, (queues, swapchain, queue), ()),
        later == *final(queues),
        call_ensures(Queues::get_wrap_queue, (&later, swapchain), told),
        *next == later,
        call_ensures(Queues::clear_wrap_queue, (next, swapchain), ()),
        last == *final(next),
        call_ensures(Queues::get_wrap_queue, (&last, swapchain), gone),
        other != swapchain,
        call_ensures(Queues::get_wrap_queue, (&*queues, other), before),
        call_ensures(Queues::get_wrap_queue, (&last, other), after),
    ensures
        told == Some(queue),
        gone is None,
        after == before,
        final(next)@.present == old(queues)@.present,
{
}

/// The queues of a swap chain's buffers are told as they were stored, until
/// they are forgotten; neither touches another swap chain or the queue that it
/// was created with.
pub proof fn law_buffer_queues_are_told_until_forgotten(
    queues: &mut Queues,
    swapchain: usize,
    slots: &[usize],
    next: &mut Queues,
    later: Queues,
    last: Queues,
    told: Option<Vec<usize>>,
    gone: Option<Vec<usize>>,
    other: usize,
    before: Option<Vec<usize>>,
    after: Option<Vec<usize>>,
)
    requires
        call_ensures(Queues::store_present_queues, (queues, swapchain, slots), ()),
        later == *final(queues),
        call_ensures(Queues::get_present_queues, (&later, swapchain), told),
        *next == later,
        call_ensures(Queues::clear_present_queues, (next, swapchain), ()),
        last == *final(next),
        call_ensures(Queues::get_present_queues, (&last, swapchain), gone),
        other != swapchain,
        call_ensures(Queues::get_present_queues, (&*queues, other), before),
        call_ensures(Queues::get_present_queues, (&last, other), after),
    ensures
        told is Some && told->0@ == slots@,
        gone is None,
        before is Some <==> after is Some,
        before is Some ==> before->0@ == after->0@,
        final(next)@.wrap == old(queues)@.wrap,
{
}

/// Buffers that are made anew have the queues that the game names, one each
/// and no more; without names theirs are forgotten, and without buffers kept.
pub proof fn law_resized_buffers_have_the_named_queues(
    queues: &mut Queues,
    swapchain: usize,
    buffer_count: u32,
    named: Option<&[usize]>,
    later: Queues,
    told: Option<Vec<usize>>,
    before: Option<Vec<usize>>,
)
    requires
        call_ensures(
            Queues::record_resize_buffers1_present_queues,
            (queues, swapchain, buffer_count, named),
            (),
        ),
        named matches Some(slots) ==> slots@.len() >= buffer_count,
        later == *final(queues),
        call_ensures(Queues::get_present_queues, (&*queues, swapchain), before),
        call_ensures(Queues::get_present_queues, (&later, swapchain), told),
    ensures
        final(queues)@.wrap == old(queues)@.wrap,
        named is None ==> told is None,
        named is Some && buffer_count == 0 ==> (told is Some <==> before is Some) && (told is Some
            ==> told->0@ == before->0@),
        named is Some && buffer_count > 0 ==> told is Some && told->0@.len() == buffer_count
            && forall|i: int| 0 <= i < buffer_count ==> #[trigger] told->0@[i] == named->0@[i],
{
}

/// The overlay's commands go to the buffer's own queue if it has one, else to
/// that of its swap chain.
pub proof fn law_commands_go_to_the_buffers_queue(
    queues: Queues,
    swapchain: usize,
    index: u32,
    queue: Option<usize>,
    slots: Option<Vec<usize>>,
    wrap: Option<usize>,
)
    requires
        call_ensures(Queues::overlay_queue, (&queues, swapchain, index), queue),
        call_ensures(Queues::get_present_queues, (&queues, swapchain), slots),
        call_ensures(Queues::get_wrap_queue, (&queues, swapchain), wrap),
    ensures
        slots is Some && index < slots->0@.len() && slots->0@[index as int] != 0 ==> queue == Some(
            slots->0@[index as int],
        ),
        slots is None || index >= slots->0@.len() || slots->0@[index as int] == 0 ==> queue == wrap,
{
}

/// A swap chain that was created with a queue is noted with it, if this version
/// is not switched off and the swap chain has a device.
pub proof fn law_created_swapchain_is_noted(
    queues: &mut Queues,
    disabled: bool,
    has_device: bool,
    swapchain: usize,
    device_queue: Option<usize>,
    later: Queues,
    told: Option<usize>,
)
    requires
        call_ensures(
            Queues::attach_from_swapchain,
            (queues, disabled, has_device, swapchain, device_queue),
            (),
        ),
        later == *final(queues),
        call_ensures(Queues::get_wrap_queue, (&later, swapchain), told),
    ensures
        final(queues)@.present == old(queues)@.present,
        !disabled && has_device && device_queue is Some ==> told == device_queue,
        disabled || !has_device || device_queue is None ==> final(queues)@ == old(queues)@,
{
}

/// There are no queues at first.
pub proof fn law_no_queue_is_known_at_first(
    queues: Queues,
    swapchain: usize,
    index: u32,
    queue: Option<usize>,
)
    requires
        call_ensures(Queues::new, (), queues),
        call_ensures(Queues::overlay_queue, (&queues, swapchain, index), queue),
    ensures
        queue is None,
{
}

/// A swap chain is drawn in exactly if there is a queue that takes drawing
/// commands and this version is not switched off.
pub proof fn law_drawing_needs_a_direct_queue(
    disabled: bool,
    queue: Option<usize>,
    direct: bool,
    ready: bool,
)
    requires
        call_ensures(dx12_ready, (disabled, queue, direct), ready),
    ensures
        ready ==> !disabled && direct && queue is Some && queue->0 != 0,
        !disabled && direct && queue is Some && queue->0 != 0 ==> ready,
{
}

/// A setting that starts with `1` switches this version off, and no other does.
pub proof fn law_one_switches_off(value: Option<&str>, off: bool)
    requires
        call_ensures(steam_overlay_disable_dx12, (value,), off),
    ensures
        value is None ==> !off,
        value matches Some(text) ==> (off <==> (text@.len() >= 1 && text@[0] == '1')),
{
}

} // verus!
