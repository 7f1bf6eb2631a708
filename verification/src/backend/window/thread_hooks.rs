//! Message hooks of the game's thread while the overlay is interactive.

use crate::backend::window::input_ll::next_hook;
use crate::hook::proc::{should_consume_pump_message, Msg, WM_NULL};
use vstd::prelude::*;

verus! {

/// A message hook that has not run for longer than this is taken for dead.
pub const GETMESSAGE_WATCHDOG_MS: u32 = 500;

pub const WM_IME_STARTCOMPOSITION: u32 = 269;
pub const WM_IME_COMPOSITION: u32 = 271;
pub const WM_IME_NOTIFY: u32 = 0x282;
pub const WM_IME_REQUEST: u32 = 0x288;

/// What the hook on retrieved messages does.
#[derive(Debug, Clone, Copy, PartialEq, Eq, Structural)]
pub enum GetMessageResult {
    /// Call the next hook.
    CallNext,
    /// The message is used up.
    Consumed,
}

/// What the hook on sent messages does.
#[derive(Debug, Clone, Copy, PartialEq, Eq, Structural)]
pub enum CallWndProcResult {
    /// Call the next hook.
    CallNext,
    /// Keep the message from the window.
    Block,
}

/// State of the message hooks.
#[derive(Debug, Clone, Copy)]
pub struct ThreadHooks {
    /// Hook on retrieved messages; 0 if there is none.
    pub getmessage_hook: usize,
    /// Hook on sent messages; 0 if there is none.
    pub callwndproc_hook: usize,
    /// Window of the game; 0 while the overlay is not interactive.
    pub game_hwnd: u32,
    /// When the hook on retrieved messages ran last.
    pub last_getmessage_tick: u32,
    /// Thread of the hooks; 0 if there are none.
    pub watchdog_tid: u32,
}

/// Whether a retrieved message is used up by the overlay.
pub open spec fn takes(n_code: i32, message: u32, interactive: bool) -> bool {
    n_code >= 0 && crate::hook::proc::consumes(message, interactive)
}

/// Decides on a retrieved message.
pub fn apply_getmessage(n_code: i32, message: u32, interactive: bool) -> (result: GetMessageResult)
    ensures
        result == (if takes(n_code, message, interactive) {
            GetMessageResult::Consumed
        } else {
            GetMessageResult::CallNext
        }),
{
    if n_code < 0 {
        return GetMessageResult::CallNext;
    }
    if should_consume_pump_message(message, interactive) {
        GetMessageResult::Consumed
    } else {
        GetMessageResult::CallNext
    }
}

/// Uses a retrieved message up, if it is for the overlay: `emit` sees it as it
/// was, and the game gets an empty message.
pub fn consume_overlay_getmessage(
    n_code: i32,
    msg: &mut Msg,
    interactive: bool,
    emit: impl FnOnce(&Msg),
) -> (result: GetMessageResult)
    requires
        takes(n_code, old(msg).message, interactive) ==> call_requires(emit, (&*old(msg),)),
    ensures
        takes(n_code, old(msg).message, interactive) ==> result == GetMessageResult::Consumed
            && call_ensures(emit, (&*old(msg),), ()) && *final(msg) == (Msg {
            message: WM_NULL,
            ..*old(msg)
        }),
        !takes(n_code, old(msg).message, interactive) ==> result == GetMessageResult::CallNext
            && *final(msg) == *old(msg),
{
    if apply_getmessage(n_code, msg.message, interactive) != GetMessageResult::Consumed {
        return GetMessageResult::CallNext;
    }
    let seen = *msg;
    emit(&seen);
    msg.message = WM_NULL;
    GetMessageResult::Consumed
}

/// Whether a message belongs to the input method editor.
pub open spec fn for_ime(message: u32) -> bool {
    message == WM_IME_NOTIFY || message == WM_IME_REQUEST || WM_IME_STARTCOMPOSITION <= message
        <= WM_IME_COMPOSITION
}

/// Whether a message belongs to the input method editor.
pub fn is_callwndproc_ime(message: u32) -> (ime: bool)
    ensures
        ime == for_ime(message),
{
    message == WM_IME_NOTIFY || message == WM_IME_REQUEST || (WM_IME_STARTCOMPOSITION <= message
        && message <= WM_IME_COMPOSITION)
}

/// Decides on a message that is sent to a window: those of the input method
/// editor do not reach the game's window.
pub fn apply_callwndproc(n_code: i32, hwnd: u32, game_hwnd: u32, message: u32) -> (result:
    CallWndProcResult)
    ensures
        result == (if n_code >= 0 && hwnd == game_hwnd && for_ime(message) {
            CallWndProcResult::Block
        } else {
            CallWndProcResult::CallNext
        }),
{
    if n_code < 0 || hwnd != game_hwnd {
        return CallWndProcResult::CallNext;
    }
    if is_callwndproc_ime(message) {
        CallWndProcResult::Block
    } else {
        CallWndProcResult::CallNext
    }
}

/// Whether the hooks are installed: while interactive, unless they are skipped.
pub fn should_install_thread_hooks(interactive: bool, skip: bool) -> (install: bool)
    ensures
        install == (interactive && !skip),
{
    interactive && !skip
}

/// Whether the hook on retrieved messages is taken for dead.
pub fn watchdog_should_reinstall(getmessage_installed: bool, tick_delta_ms: u32) -> (reinstall:
    bool)
    ensures
        reinstall == (getmessage_installed && tick_delta_ms > GETMESSAGE_WATCHDOG_MS),
{
    getmessage_installed && tick_delta_ms > GETMESSAGE_WATCHDOG_MS
}

/// The programs that are exempt by their name: none.
pub fn skip_exe_names() -> (names: Vec<&'static str>)
    ensures
        names@.len() == 0,
{
    Vec::new()
}

/// Whether the hooks are skipped: only where the environment says so, for no
/// program is exempt by its name.
pub fn skip_thread_hooks_decision(env_skip: bool, _exe_name: &str) -> (skip: bool)
    ensures
        skip == env_skip,
{
    env_skip
}

/// A time in milliseconds on a clock of 32 bits; a clock before its epoch
/// stands still.
pub fn now_ms(since_epoch: Option<u128>) -> (now: u32)
    ensures
        now == (match since_epoch {
            Some(millis) => (millis % 0x1_0000_0000) as u32,
            None => 0,
        }),
{
    match since_epoch {
        Some(millis) => (millis % 0x1_0000_0000) as u32,
        None => 0,
    }
}

impl ThreadHooks {
    /// No hooks.
    pub fn new() -> (state: ThreadHooks)
        ensures
            state == ThreadHooks::off(),
    {
        ThreadHooks {
            getmessage_hook: 0,
            callwndproc_hook: 0,
            game_hwnd: 0,
            last_getmessage_tick: 0,
            watchdog_tid: 0,
        }
    }

    /// The state without hooks.
    pub open spec fn off() -> ThreadHooks {
        ThreadHooks {
            getmessage_hook: 0,
            callwndproc_hook: 0,
            game_hwnd: 0,
            last_getmessage_tick: 0,
            watchdog_tid: 0,
        }
    }

    /// Whether any of the hooks is there.
    pub open spec fn any_hook(self) -> bool {
        self.getmessage_hook != 0 || self.callwndproc_hook != 0
    }

    /// Prepares the installation on a thread, and tells whether the two hooks
    /// are to be set there: not where they are skipped, and not twice.
    pub fn install(&mut self, hwnd: u32, skip: bool, tid: u32, now: u32) -> (set: bool)
        ensures
            set == (!skip && !old(self).any_hook()),
            *final(self) == (if set {
                ThreadHooks {
                    game_hwnd: hwnd,
                    watchdog_tid: tid,
                    last_getmessage_tick: now,
                    ..*old(self)
                }
            } else {
                *old(self)
            }),
    {
        if !should_install_thread_hooks(true, skip) {
            return false;
        }
        if self.getmessage_hook != 0 || self.callwndproc_hook != 0 {
            return false;
        }
        self.game_hwnd = hwnd;
        self.watchdog_tid = tid;
        self.last_getmessage_tick = now;
        true
    }

    /// Notes the hooks that could be set.
    pub fn installed(&mut self, getmessage: Option<usize>, callwndproc: Option<usize>)
        ensures
            *final(self) == (ThreadHooks {
                getmessage_hook: match getmessage {
                    Some(hook) => hook,
                    None => old(self).getmessage_hook,
                },
                callwndproc_hook: match callwndproc {
                    Some(hook) => hook,
                    None => old(self).callwndproc_hook,
                },
                ..*old(self)
            }),
    {
        if let Some(hook) = getmessage {
            self.getmessage_hook = hook;
        }
        if let Some(hook) = callwndproc {
            self.callwndproc_hook = hook;
        }
    }

    /// Forgets the hooks and hands out those that there were, the one on
    /// retrieved messages first.
    pub fn uninstall(&mut self) -> (hooks: (Option<usize>, Option<usize>))
        ensures
            hooks == (
                crate::backend::window::input_ll::hook_of(old(self).getmessage_hook),
                crate::backend::window::input_ll::hook_of(old(self).callwndproc_hook),
            ),
            *final(self) == ThreadHooks::off(),
    {
        let hooks = (next_hook(self.getmessage_hook), next_hook(self.callwndproc_hook));
        self.game_hwnd = 0;
        self.getmessage_hook = 0;
        self.callwndproc_hook = 0;
        self.watchdog_tid = 0;
        self.last_getmessage_tick = 0;
        hooks
    }

    /// Whether the hook on retrieved messages is taken for dead at `now`.
    pub open spec fn looks_dead(self, now: u32) -> bool {
        self.getmessage_hook != 0 && now.wrapping_sub(self.last_getmessage_tick)
            > GETMESSAGE_WATCHDOG_MS
    }

    /// Looks after the hook on retrieved messages. Where it is taken for dead it
    /// is forgotten and handed out for removal, with the thread on which another
    /// is to be set, if there is one.
    pub fn tick_watchdog(&mut self, now: u32) -> (reset: Option<(usize, Option<u32>)>)
        ensures
            reset == (if old(self).looks_dead(now) {
                Some(
                    (
                        old(self).getmessage_hook,
                        if old(self).watchdog_tid != 0 {
                            Some(old(self).watchdog_tid)
                        } else {
                            None
                        },
                    ),
                )
            } else {
                None
            }),
            *final(self) == (if !old(self).looks_dead(now) {
                *old(self)
            } else if old(self).watchdog_tid != 0 {
                ThreadHooks { getmessage_hook: 0, last_getmessage_tick: now, ..*old(self) }
            } else {
                ThreadHooks { getmessage_hook: 0, ..*old(self) }
            }),
    {
        let installed = self.getmessage_hook != 0;
        let delta: u32 = now.wrapping_sub(self.last_getmessage_tick);
        if !watchdog_should_reinstall(installed, delta) {
            return None;
        }
        let dead: usize = self.getmessage_hook;
        self.getmessage_hook = 0;
        if self.watchdog_tid == 0 {
            return Some((dead, None));
        }
        self.last_getmessage_tick = now;
        Some((dead, Some(self.watchdog_tid)))
    }

    /// Decides on a retrieved message, and notes that the hook is alive. `emit`
    /// sees a message that is used up, before the game gets an empty one.
    pub fn getmessage_proc(
        &mut self,
        now: u32,
        code: i32,
        msg: Option<&mut Msg>,
        emit: impl FnOnce(&Msg),
    ) -> (result: GetMessageResult)
        requires
            msg matches Some(msg) ==> (takes(code, msg.message, old(self).game_hwnd != 0)
                ==> call_requires(emit, (&*msg,))),
        ensures
            *final(self) == (ThreadHooks { last_getmessage_tick: now, ..*old(self) }),
            match msg {
                None => result == GetMessageResult::CallNext,
                Some(msg) => {
                    let taken = takes(code, msg.message, old(self).game_hwnd != 0);
                    &&& result == (if taken {
                        GetMessageResult::Consumed
                    } else {
                        GetMessageResult::CallNext
                    })
                    &&& *final(msg) == (if taken {
                        Msg { message: WM_NULL, ..*msg }
                    } else {
                        *msg
                    })
                    &&& taken ==> call_ensures(emit, (&*msg,), ())
                },
            },
    {
        self.last_getmessage_tick = now;
        match msg {
            None => GetMessageResult::CallNext,
            Some(msg) => {
                let interactive = self.game_hwnd != 0;
                consume_overlay_getmessage(code, msg, interactive, emit)
            },
        }
    }

    /// Decides on a sent message; a message that is not there goes on.
    pub fn callwndproc_proc(&self, code: i32, msg: Option<(u32, u32)>) -> (result:
        CallWndProcResult)
        ensures
            result == (match msg {
                Some((hwnd, message)) if code >= 0 && hwnd == self.game_hwnd && for_ime(message)
                    => CallWndProcResult::Block,
                _ => CallWndProcResult::CallNext,
            }),
    {
        match msg {
            Some((hwnd, message)) => apply_callwndproc(code, hwnd, self.game_hwnd, message),
            None => CallWndProcResult::CallNext,
        }
    }
}

/// A retrieved message is used up exactly if the hook is to act, the overlay is
/// interactive, and the message comes from the mouse, 0x200 to 0x20E, or the keyboard,
/// 0x100 to 0x102 and 0x104 to 0x106. The overlay then sees it as it was, and the game
/// gets message 0 with all else kept; any other message goes on as it is.
pub proof fn law_input_is_used_up_by_the_overlay<F: FnOnce(&Msg)>(
    code: i32,
    msg: &mut Msg,
    interactive: bool,
    emit: F,
    result: GetMessageResult,
    decided: GetMessageResult,
)
    requires
        call_ensures(consume_overlay_getmessage, (code, msg, interactive, emit), result),
        call_ensures(apply_getmessage, (code, msg.message, interactive), decided),
    ensures
        ({
            let message = old(msg).message;
            let input = 0x200 <= message <= 0x20E || 0x100 <= message <= 0x102 || 0x104 <= message
                <= 0x106;
            &&& result is Consumed <==> code >= 0 && interactive && input
            &&& result is Consumed ==> final(msg).message == 0 && call_ensures(
                emit,
                (&*old(msg),),
                (),
            )
            &&& result is CallNext ==> final(msg).message == message
        }),
        decided == result,
        final(msg).hwnd == old(msg).hwnd,
        final(msg).wparam == old(msg).wparam,
        final(msg).lparam == old(msg).lparam,
        final(msg).time == old(msg).time,
{
}

/// Messages of the input method editor, 0x10D to 0x10F, 0x282 and 0x288, do not reach
/// the game's window; everything else does, and other windows get them.
pub proof fn law_ime_messages_do_not_reach_the_game(
    hooks: ThreadHooks,
    code: i32,
    hwnd: u32,
    message: u32,
    result: CallWndProcResult,
    none: CallWndProcResult,
    applied: CallWndProcResult,
    ime: bool,
)
    requires
        call_ensures(ThreadHooks::callwndproc_proc, (&hooks, code, Some((hwnd, message))), result),
        call_ensures(ThreadHooks::callwndproc_proc, (&hooks, code, None::<(u32, u32)>), none),
        call_ensures(apply_callwndproc, (code, hwnd, hooks.game_hwnd, message), applied),
        call_ensures(is_callwndproc_ime, (message,), ime),
    ensures
        ime <==> 0x10D <= message <= 0x10F || message == 0x282 || message == 0x288,
        result is Block <==> code >= 0 && hwnd == hooks.game_hwnd && (0x10D <= message <= 0x10F
            || message == 0x282 || message == 0x288),
        none is CallNext,
        applied == result,
{
}

/// The hooks are set while the overlay is interactive, unless the environment says
/// otherwise; the name of a program never does. They are set once, for the window and
/// thread that they are for, and what could be set is handed out again when they go.
pub proof fn law_hooks_are_set_once(
    state: &mut ThreadHooks,
    noted: &mut ThreadHooks,
    gone: &mut ThreadHooks,
    hwnd: u32,
    skip: bool,
    tid: u32,
    now: u32,
    set: bool,
    getmessage: Option<usize>,
    callwndproc: Option<usize>,
    hooks: (Option<usize>, Option<usize>),
)
    requires
        call_ensures(ThreadHooks::install, (state, hwnd, skip, tid, now), set),
        *noted == *final(state),
        call_ensures(ThreadHooks::installed, (noted, getmessage, callwndproc), ()),
        *gone == *final(noted),
        call_ensures(ThreadHooks::uninstall, (gone,), hooks),
        getmessage matches Some(hook) ==> hook != 0,
        callwndproc matches Some(hook) ==> hook != 0,
    ensures
        set <==> !skip && old(state).getmessage_hook == 0 && old(state).callwndproc_hook == 0,
        set ==> final(state).game_hwnd == hwnd && final(state).watchdog_tid == tid && final(state).last_getmessage_tick == now,
        !set ==> *final(state) == *old(state),
        set ==> hooks.0 == getmessage && hooks.1 == callwndproc,
        getmessage is Some ==> hooks.0 == getmessage,
        callwndproc is Some ==> hooks.1 == callwndproc,
        final(noted).game_hwnd == final(state).game_hwnd,
        final(gone).getmessage_hook == 0 && final(gone).callwndproc_hook == 0,
        final(gone).game_hwnd == 0 && final(gone).watchdog_tid == 0 && final(gone).last_getmessage_tick == 0,
{
}

/// What decides on the hooks: interactive and not skipped; skipped exactly if the
/// environment says so.
pub proof fn law_environment_alone_skips_the_hooks(
    interactive: bool,
    env: bool,
    name: &str,
    skip: bool,
    set: bool,
    names: Vec<&'static str>,
)
    requires
        call_ensures(skip_thread_hooks_decision, (env, name), skip),
        call_ensures(should_install_thread_hooks, (interactive, skip), set),
        call_ensures(skip_exe_names, (), names),
    ensures
        skip == env,
        set <==> interactive && !env,
        names@.len() == 0,
{
}

/// A hook that has been silent for more than half a second is taken for dead: it is
/// handed out, and another is to be set on its thread, if that is known; the clock may
/// wrap in between. A hook that was not silent so long, or is not there, is left alone.
pub proof fn law_silent_hook_is_replaced(
    state: &mut ThreadHooks,
    now: u32,
    silent: u32,
    reset: Option<(usize, Option<u32>)>,
    dead: bool,
    installed: bool,
)
    requires
        call_ensures(ThreadHooks::tick_watchdog, (state, now), reset),
        call_ensures(watchdog_should_reinstall, (installed, silent), dead),
        now == state.last_getmessage_tick.wrapping_add(silent),
    ensures
        reset is Some <==> old(state).getmessage_hook != 0 && silent > 500,
        dead <==> installed && silent > 500,
        reset matches Some((hook, thread)) ==> {
            &&& hook == old(state).getmessage_hook
            &&& final(state).getmessage_hook == 0
            &&& thread is Some <==> old(state).watchdog_tid != 0
            &&& thread is Some ==> thread->0 == old(state).watchdog_tid && final(state).last_getmessage_tick == now
            &&& thread is None ==> final(state).last_getmessage_tick == old(
                state,
            ).last_getmessage_tick
        },
        reset is None ==> *final(state) == *old(state),
        final(state).game_hwnd == old(state).game_hwnd,
        final(state).callwndproc_hook == old(state).callwndproc_hook,
        final(state).watchdog_tid == old(state).watchdog_tid,
{
}

/// A hook that runs is alive: it is not taken for dead within the next half second. It
/// uses input up while the game's window is known, and only then.
pub proof fn law_running_hook_is_alive<F: FnOnce(&Msg)>(
    state: &mut ThreadHooks,
    later: &mut ThreadHooks,
    now: u32,
    silent: u32,
    code: i32,
    msg: &mut Msg,
    emit: F,
    result: GetMessageResult,
    reset: Option<(usize, Option<u32>)>,
)
    requires
        call_ensures(ThreadHooks::getmessage_proc, (state, now, code, Some(msg), emit), result),
        *later == *final(state),
        silent <= 500,
        call_ensures(ThreadHooks::tick_watchdog, (later, now.wrapping_add(silent)), reset),
    ensures
        reset is None,
        ({
            let message = old(msg).message;
            let input = 0x200 <= message <= 0x20E || 0x100 <= message <= 0x102 || 0x104 <= message
                <= 0x106;
            &&& result is Consumed <==> code >= 0 && old(state).game_hwnd != 0 && input
            &&& result is Consumed ==> final(msg).message == 0
            &&& result is CallNext ==> *final(msg) == *old(msg)
        }),
        final(state).getmessage_hook == old(state).getmessage_hook,
        final(state).game_hwnd == old(state).game_hwnd,
{
}

/// The clock of 32 bits counts milliseconds and wraps: it moves on by as much as the
/// real one does, and stands at 0 where that one is before its start.
pub proof fn law_clock_wraps(start: u128, passed: u32, first: u32, second: u32, never: u32)
    requires
        start + passed <= u128::MAX,
        call_ensures(now_ms, (Some(start),), first),
        call_ensures(now_ms, (Some((start + passed) as u128),), second),
        call_ensures(now_ms, (None::<u128>,), never),
    ensures
        second == first.wrapping_add(passed),
        start < 0x1_0000_0000 ==> first == start,
        never == 0,
{
}

/// At first no hook is there, no window is known, and nothing is watched.
pub proof fn law_no_hook_at_first(state: ThreadHooks)
    requires
        call_ensures(ThreadHooks::new, (), state),
    ensures
        state.getmessage_hook == 0 && state.callwndproc_hook == 0,
        state.game_hwnd == 0 && state.last_getmessage_tick == 0 && state.watchdog_tid == 0,
{
}

} // verus!
