//! Waiting for commands that were handed to the game's queue.

use vstd::prelude::*;

verus! {

/// Whether commands are still under way.
pub open spec fn busy(completed: u64, fence_val: u64) -> bool {
    completed < fence_val
}

/// Whether commands are still under way: the fence has not reached the value
/// that follows them.
pub fn gpu_busy(completed: u64, fence_val: u64) -> (is_busy: bool)
    ensures
        is_busy == busy(completed, fence_val),
{
    completed < fence_val
}

/// What is done before drawing.
#[derive(Debug, Clone, Copy, PartialEq, Eq, Structural)]
pub enum PendingAction {
    Draw,
    Wait,
}

/// What is done before drawing: commands that are under way are waited for, and
/// never is a frame left out.
pub fn pending_fence_action(pending: bool) -> (action: PendingAction)
    ensures
        action == if pending {
            PendingAction::Wait
        } else {
            PendingAction::Draw
        },
{
    if pending {
        PendingAction::Wait
    } else {
        PendingAction::Draw
    }
}

/// The value that the fence reaches after the last commands.
#[derive(Debug, Clone, Copy, PartialEq, Eq, Structural)]
pub struct RendererFence {
    pub fence_val: u64,
}

/// Whether `done` is what comes of waiting for commands; `block` waits until
/// the fence reaches a value.
pub open spec fn waits<E, F: FnOnce(u64) -> Result<(), E>>(
    fence: RendererFence,
    completed: u64,
    block: F,
    done: Result<(), E>,
) -> bool {
    if busy(completed, fence.fence_val) {
        call_ensures(block, (fence.fence_val,), done)
    } else {
        done == Ok::<(), E>(())
    }
}

impl RendererFence {
    /// Nothing was handed over.
    pub fn new() -> (fence: RendererFence)
        ensures
            fence.fence_val == 0,
    {
        RendererFence { fence_val: 0 }
    }

    /// Follows commands with a new value, which `signal` has the queue set.
    pub fn register<E, F: FnOnce(u64) -> Result<(), E>>(&mut self, signal: F) -> (done: Result<
        (),
        E,
    >)
        requires
            old(self).fence_val < u64::MAX,
            call_requires(signal, ((old(self).fence_val + 1) as u64,)),
        ensures
            final(self).fence_val == old(self).fence_val + 1,
            call_ensures(signal, (final(self).fence_val,), done),
    {
        self.fence_val += 1;
        signal(self.fence_val)
    }

    /// Whether commands are still under way.
    pub fn is_pending(&self, completed: u64) -> (pending: bool)
        ensures
            pending == busy(completed, self.fence_val),
    {
        gpu_busy(completed, self.fence_val)
    }

    /// Waits for commands that are under way.
    pub fn wait_pending<E, F: FnOnce(u64) -> Result<(), E>>(&self, completed: u64, block: F) -> (
    done: Result<(), E>)
        requires
            busy(completed, self.fence_val) ==> call_requires(block, (self.fence_val,)),
        ensures
            waits(*self, completed, block, done),
    {
        if !self.is_pending(completed) {
            return Ok(());
        }
        match pending_fence_action(true) {
            PendingAction::Draw => Ok(()),
            PendingAction::Wait => block(self.fence_val),
        }
    }

    /// Whether the event of a fence that is dropped is closed: not while commands
    /// are under way that may still set it.
    pub fn closes_event(&self, completed: u64, event: usize) -> (close: bool)
        ensures
            close == (!busy(completed, self.fence_val) && event != 0 && event != usize::MAX),
    {
        !(self.is_pending(completed) || event == 0 || event == usize::MAX)
    }
}

/// Handing commands over makes the fence busy until it reaches the new value,
/// however many layers they drew: there is one value for a frame.
pub proof fn law_one_value_for_a_frame(before: RendererFence, completed: u64)
    requires
        before.fence_val < u64::MAX,
        !busy(completed, before.fence_val),
        completed == before.fence_val,
    ensures
        busy(completed, (before.fence_val + 1) as u64),
        !busy((completed + 1) as u64, (before.fence_val + 1) as u64),
{
}

/// Commands are under way until the fence has reached their value, and then they
/// no longer are; only while they are is a frame waited for.
pub proof fn law_commands_are_waited_for(
    completed: u64,
    fence_val: u64,
    is_busy: bool,
    action: PendingAction,
)
    requires
        call_ensures(gpu_busy, (completed, fence_val), is_busy),
        call_ensures(pending_fence_action, (is_busy,), action),
    ensures
        is_busy <==> fence_val > completed,
        action is Wait <==> is_busy,
{
}

/// Each list of commands is followed by a value one above the last, which is
/// what the queue is told to set and what is pending until it is reached.
pub proof fn law_each_list_has_its_own_value<E, F: FnOnce(u64) -> Result<(), E>>(
    fresh: RendererFence,
    fence: &mut RendererFence,
    signal: F,
    done: Result<(), E>,
    later: RendererFence,
    completed: u64,
    pending: bool,
)
    requires
        call_ensures(RendererFence::new, (), fresh),
        call_ensures(RendererFence::register::<E, F>, (fence, signal), done),
        later == *final(fence),
        call_ensures(RendererFence::is_pending, (&later, completed), pending),
    ensures
        fresh.fence_val == 0,
        final(fence).fence_val == old(fence).fence_val + 1,
        call_ensures(signal, ((old(fence).fence_val + 1) as u64,), done),
        pending <==> completed < old(fence).fence_val + 1,
        completed <= old(fence).fence_val ==> pending,
{
}

/// Waiting blocks for the fence's value while it is pending, and does not block
/// otherwise.
pub proof fn law_waiting_blocks_only_while_pending<E, F: FnOnce(u64) -> Result<(), E>>(
    fence: RendererFence,
    completed: u64,
    block: F,
    done: Result<(), E>,
    pending: bool,
)
    requires
        call_ensures(RendererFence::wait_pending::<E, F>, (&fence, completed, block), done),
        call_ensures(RendererFence::is_pending, (&fence, completed), pending),
    ensures
        pending ==> call_ensures(block, (fence.fence_val,), done),
        !pending ==> done is Ok,
{
}

/// A fence's event is closed if it is one and no commands are under way.
pub proof fn law_event_is_closed_when_idle(
    fence: RendererFence,
    completed: u64,
    event: usize,
    close: bool,
    pending: bool,
)
    requires
        call_ensures(RendererFence::closes_event, (&fence, completed, event), close),
        call_ensures(RendererFence::is_pending, (&fence, completed), pending),
    ensures
        close <==> (!pending && event != 0 && event != usize::MAX),
{
}

} // verus!
