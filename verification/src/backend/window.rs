//! Input state of a window.

pub mod input_event;
pub mod input_ll;
pub mod thread_hooks;

use crate::geometry::Rect;
use crate::paint_cmd::{BlockingCursor, HotkeyChord};
use vstd::prelude::*;

verus! {

/// Input events that clients listen to.
#[derive(Debug, Clone, Copy, PartialEq, Eq, Structural)]
pub struct ListenInputFlags {
    pub cursor: bool,
    pub keyboard: bool,
}

impl ListenInputFlags {
    /// No events.
    pub fn empty() -> (flags: ListenInputFlags)
        ensures
            flags == (ListenInputFlags { cursor: false, keyboard: false }),
    {
        ListenInputFlags { cursor: false, keyboard: false }
    }
}

/// Where the cursor is.
#[derive(Debug, Clone, Copy, PartialEq, Eq, Structural)]
pub enum CursorState {
    Inside(i16, i16),
    Outside,
}

/// State of the input method editor.
#[derive(Debug, Clone, Copy, PartialEq, Eq, Structural)]
pub enum ImeState {
    Enabled,
    Compose,
    Disabled,
}

/// What is put back when blocking ends.
#[derive(Debug, Clone, Copy, PartialEq, Eq, Structural)]
pub struct InputBlockData {
    /// Area that the game confined the cursor to.
    pub clip_cursor: Option<Rect>,
    /// Input context that the game's window had.
    pub old_ime_cx: usize,
    /// Display count of the cursor. While input is blocked the game counts here.
    pub show_count: i32,
    /// The game's cursor.
    pub saved_cursor: isize,
    /// Cursor of the game's window class.
    pub class_cursor: usize,
}

impl InputBlockData {
    /// The game shows or hides its cursor: only the saved count moves.
    pub fn apply_show_cursor(&mut self, show: bool) -> (count: i32)
        requires
            show ==> old(self).show_count < i32::MAX,
            !show ==> old(self).show_count > i32::MIN,
        ensures
            count == old(self).show_count + (if show { 1int } else { -1int }),
            *final(self) == (InputBlockData { show_count: count, ..*old(self) }),
    {
        if show {
            self.show_count += 1;
        } else {
            self.show_count -= 1;
        }
        self.show_count
    }

    /// The game sets its cursor: it is kept for later, and the one that was kept
    /// is handed back.
    pub fn apply_set_cursor(&mut self, cursor: isize) -> (previous: isize)
        ensures
            previous == old(self).saved_cursor,
            *final(self) == (InputBlockData { saved_cursor: cursor, ..*old(self) }),
    {
        let previous: isize = self.saved_cursor;
        self.saved_cursor = cursor;
        previous
    }
}

/// Input state of a window.
#[derive(Debug, Clone, Copy)]
pub struct WindowProcData {
    /// Where the overlay surface starts in the window.
    pub position: (i32, i32),
    pub listen_input: ListenInputFlags,
    /// Set while the game's input is blocked.
    pub blocking_state: Option<InputBlockData>,
    pub blocking_cursor: BlockingCursor,
    pub hotkey: HotkeyChord,
    pub last_ime: Option<u32>,
    pub cursor_state: CursorState,
    pub ime: ImeState,
    pub last_click_time: i32,
}

impl WindowProcData {
    /// Nothing is listened to, and nothing is blocked.
    pub fn new() -> (data: WindowProcData)
        ensures
            data == WindowProcData::fresh(),
    {
        WindowProcData {
            position: (0, 0),
            listen_input: ListenInputFlags::empty(),
            blocking_state: None,
            blocking_cursor: BlockingCursor::Default,
            hotkey: HotkeyChord { vk: 0, modifiers: 0 },
            last_ime: None,
            cursor_state: CursorState::Outside,
            ime: ImeState::Disabled,
            last_click_time: 0,
        }
    }

    /// The state of a window that was just found.
    pub open spec fn fresh() -> WindowProcData {
        WindowProcData {
            position: (0, 0),
            listen_input: ListenInputFlags { cursor: false, keyboard: false },
            blocking_state: None,
            blocking_cursor: BlockingCursor::Default,
            hotkey: HotkeyChord { vk: 0, modifiers: 0 },
            last_ime: None,
            cursor_state: CursorState::Outside,
            ime: ImeState::Disabled,
            last_click_time: 0,
        }
    }

    /// The state with everything that clients set taken back. Blocking is ended
    /// on its own.
    pub open spec fn after_reset(self) -> WindowProcData {
        WindowProcData {
            position: (0, 0),
            listen_input: ListenInputFlags { cursor: false, keyboard: false },
            blocking_cursor: BlockingCursor::Default,
            hotkey: HotkeyChord { vk: 0, modifiers: 0 },
            last_ime: None,
            ..self
        }
    }

    /// Takes back what clients set.
    pub fn reset(&mut self)
        ensures
            *final(self) == old(self).after_reset(),
    {
        self.position = (0, 0);
        self.listen_input = ListenInputFlags::empty();
        self.blocking_cursor = BlockingCursor::Default;
        self.hotkey = HotkeyChord { vk: 0, modifiers: 0 };
        self.last_ime = None;
    }

    /// Whether cursor events are wanted; they are while input is blocked.
    pub open spec fn wants_cursor(self) -> bool {
        self.listen_input.cursor || self.blocking_state is Some
    }

    /// Whether keyboard events are wanted; they are while input is blocked.
    pub open spec fn wants_keyboard(self) -> bool {
        self.listen_input.keyboard || self.blocking_state is Some
    }

    /// Whether cursor events are wanted.
    pub fn listening_cursor(&self) -> (listening: bool)
        ensures
            listening == self.wants_cursor(),
    {
        self.listen_input.cursor || self.blocking_state.is_some()
    }

    /// Whether keyboard events are wanted.
    pub fn listening_keyboard(&self) -> (listening: bool)
        ensures
            listening == self.wants_keyboard(),
    {
        self.listen_input.keyboard || self.blocking_state.is_some()
    }

    /// Whether the game's input is blocked.
    pub fn input_blocking(&self) -> (blocking: bool)
        ensures
            blocking == (self.blocking_state is Some),
    {
        self.blocking_state.is_some()
    }

    /// Notes the time of a click and tells how long ago the last one was. Times
    /// count milliseconds and wrap around.
    pub fn update_click_time(&mut self, new_time: i32) -> (delta: u32)
        ensures
            delta == (new_time as u32).wrapping_sub(old(self).last_click_time as u32),
            *final(self) == (WindowProcData { last_click_time: new_time, ..*old(self) }),
    {
        let delta: u32 = (new_time as u32).wrapping_sub(self.last_click_time as u32);
        self.last_click_time = new_time;
        delta
    }
}

/// How far the cursor's display count has been raised.
#[derive(Debug, Clone, Copy, PartialEq, Eq, Structural)]
pub enum ShowPhase {
    /// Nothing was called yet.
    Start,
    /// The count was `saved`, and the cursor is still hidden.
    Raising { saved: i32 },
    /// The count was `saved`, and the cursor is visible.
    Done { saved: i32 },
}

/// The next phase, after showing the cursor once more returned `count`. The
/// first call tells what the count was; a hidden cursor is shown until its
/// count is not negative.
pub open spec fn raised(phase: ShowPhase, count: i32) -> ShowPhase {
    match phase {
        ShowPhase::Start => if count - 1 < 0 {
            ShowPhase::Raising { saved: (count - 1) as i32 }
        } else {
            ShowPhase::Done { saved: (count - 1) as i32 }
        },
        ShowPhase::Raising { saved } => if count < 0 {
            phase
        } else {
            ShowPhase::Done { saved }
        },
        ShowPhase::Done { .. } => phase,
    }
}

/// Raises the display count until the cursor is visible: takes what showing the
/// cursor returned, and tells what comes next. In every phase but the last the
/// cursor is shown once more.
pub fn show_until_visible(phase: ShowPhase, count: i32) -> (next: ShowPhase)
    requires
        phase is Start ==> count > i32::MIN,
    ensures
        next == raised(phase, count),
{
    match phase {
        ShowPhase::Start => {
            let saved: i32 = count - 1;
            if saved < 0 {
                ShowPhase::Raising { saved }
            } else {
                ShowPhase::Done { saved }
            }
        },
        ShowPhase::Raising { saved } => if count < 0 {
            phase
        } else {
            ShowPhase::Done { saved }
        },
        ShowPhase::Done { .. } => phase,
    }
}

/// How far the cursor's display count has been brought back.
#[derive(Debug, Clone, Copy, PartialEq, Eq, Structural)]
pub enum RestorePhase {
    /// Nothing was called yet.
    Start,
    /// The count is above the target.
    Lowering,
    /// The count is below the target.
    Raising,
    /// The count is where it was.
    Done,
}

impl RestorePhase {
    /// What is called next: whether to show or to hide the cursor.
    pub open spec fn call(self) -> Option<bool> {
        match self {
            RestorePhase::Start | RestorePhase::Raising => Some(true),
            RestorePhase::Lowering => Some(false),
            RestorePhase::Done => None,
        }
    }

    /// What is called next: whether to show or to hide the cursor.
    pub fn next_call(self) -> (show: Option<bool>)
        ensures
            show == self.call(),
    {
        match self {
            RestorePhase::Start | RestorePhase::Raising => Some(true),
            RestorePhase::Lowering => Some(false),
            RestorePhase::Done => None,
        }
    }
}

/// The next phase, after a call returned `count`.
pub open spec fn restored(target: i32, phase: RestorePhase, count: i32) -> RestorePhase {
    match phase {
        RestorePhase::Start | RestorePhase::Lowering => if count > target {
            RestorePhase::Lowering
        } else if count < target {
            RestorePhase::Raising
        } else {
            RestorePhase::Done
        },
        RestorePhase::Raising => if count < target {
            RestorePhase::Raising
        } else {
            RestorePhase::Done
        },
        RestorePhase::Done => RestorePhase::Done,
    }
}

/// Drives the display count back to `target`: takes what the last call returned,
/// and tells what comes next.
pub fn restore_show_count(target: i32, phase: RestorePhase, count: i32) -> (next: RestorePhase)
    ensures
        next == restored(target, phase, count),
{
    match phase {
        RestorePhase::Start | RestorePhase::Lowering => if count > target {
            RestorePhase::Lowering
        } else if count < target {
            RestorePhase::Raising
        } else {
            RestorePhase::Done
        },
        RestorePhase::Raising => if count < target {
            RestorePhase::Raising
        } else {
            RestorePhase::Done
        },
        RestorePhase::Done => RestorePhase::Done,
    }
}

/// Whether a cursor clip is tighter than the desktop.
pub fn clip_is_tighter(clip: Rect, desktop: Rect) -> (tighter: bool)
    ensures
        tighter == !(clip.left <= desktop.left && clip.top <= desktop.top && desktop.right
            <= clip.right && desktop.bottom <= clip.bottom),
{
    clip.left > desktop.left || clip.top > desktop.top || clip.right < desktop.right || clip.bottom
        < desktop.bottom
}

/// The class cursor to put back; there is none to put back if it was 0.
pub fn class_cursor_to_restore(saved: usize) -> (cursor: Option<usize>)
    ensures
        cursor == (if saved != 0 { Some(saved) } else { None }),
{
    if saved != 0 {
        Some(saved)
    } else {
        None
    }
}

/// Phase and display count after `steps` calls of a system whose display count
/// starts at `count` and moves by one with each call.
pub open spec fn raise_run(phase: ShowPhase, count: int, steps: nat) -> (ShowPhase, int)
    decreases steps,
{
    if steps == 0 || phase is Done {
        (phase, count)
    } else {
        raise_run(raised(phase, (count + 1) as i32), count + 1, (steps - 1) as nat)
    }
}

/// Phase and display count after `steps` calls of such a system.
pub open spec fn restore_run(target: i32, phase: RestorePhase, count: int, steps: nat) -> (
    RestorePhase,
    int,
)
    decreases steps,
{
    match phase.call() {
        Some(show) if steps > 0 => {
            let moved = if show {
                count + 1
            } else {
                count - 1
            };
            restore_run(target, restored(target, phase, moved as i32), moved, (steps - 1) as nat)
        },
        _ => (phase, count),
    }
}

/// Raising ends with a visible cursor, and with the count that there was before.
pub proof fn law_cursor_becomes_visible(count: int)
    requires
        i32::MIN <= count < i32::MAX,
    ensures
        exists|steps: nat|
            {
                let (phase, shown) = #[trigger] raise_run(ShowPhase::Start, count, steps);
                phase == ShowPhase::Done { saved: count as i32 } && 0 <= shown
            },
{
    let first = raised(ShowPhase::Start, (count + 1) as i32);
    if count < 0 {
        assert(first == ShowPhase::Raising { saved: count as i32 });
        let rest = lemma_raising_ends(count as i32, count + 1);
        assert(raise_run(ShowPhase::Start, count, rest + 1) == raise_run(first, count + 1, rest));
    } else {
        assert(first == ShowPhase::Done { saved: count as i32 });
        assert(raise_run(ShowPhase::Start, count, 1) == raise_run(first, count + 1, 0));
    }
}

proof fn lemma_raising_ends(saved: i32, count: int) -> (steps: nat)
    requires
        i32::MIN <= count <= 0,
    ensures
        raise_run(ShowPhase::Raising { saved }, count, steps).0 == (ShowPhase::Done { saved }),
        raise_run(ShowPhase::Raising { saved }, count, steps).1 >= 0,
    decreases -count,
{
    let phase = ShowPhase::Raising { saved };
    let next = raised(phase, (count + 1) as i32);
    if count + 1 < 0 {
        let rest = lemma_raising_ends(saved, count + 1);
        assert(raise_run(phase, count, rest + 1) == raise_run(next, count + 1, rest));
        rest + 1
    } else {
        assert(raise_run(phase, count, 1) == raise_run(next, count + 1, 0));
        1
    }
}

/// Bringing the count back ends at the target, wherever it starts.
pub proof fn law_show_count_is_restored(target: i32, count: int)
    requires
        i32::MIN <= count < i32::MAX,
    ensures
        exists|steps: nat|
            (#[trigger] restore_run(target, RestorePhase::Start, count, steps)) == (
                RestorePhase::Done,
                target as int,
            ),
{
    let first = restored(target, RestorePhase::Start, (count + 1) as i32);
    let rest = lemma_restoring_ends(target, first, count + 1);
    assert(restore_run(target, RestorePhase::Start, count, rest + 1) == restore_run(
        target,
        first,
        count + 1,
        rest,
    ));
}

proof fn lemma_restoring_ends(target: i32, phase: RestorePhase, count: int) -> (steps: nat)
    requires
        i32::MIN <= count <= i32::MAX,
        phase is Lowering ==> count > target,
        phase is Raising ==> count < target,
        phase is Done ==> count == target,
        !(phase is Start),
    ensures
        restore_run(target, phase, count, steps) == (RestorePhase::Done, target as int),
    decreases
            if count > target {
                count - target
            } else {
                target - count
            },
{
    match phase {
        RestorePhase::Lowering => {
            let next = restored(target, phase, (count - 1) as i32);
            let rest = lemma_restoring_ends(target, next, count - 1);
            assert(restore_run(target, phase, count, rest + 1) == restore_run(
                target,
                next,
                count - 1,
                rest,
            ));
            rest + 1
        },
        RestorePhase::Raising => {
            let next = restored(target, phase, (count + 1) as i32);
            let rest = lemma_restoring_ends(target, next, count + 1);
            assert(restore_run(target, phase, count, rest + 1) == restore_run(
                target,
                next,
                count + 1,
                rest,
            ));
            rest + 1
        },
        _ => 0,
    }
}

/// While input is blocked the game counts for itself: showing its cursor counts up by
/// one, hiding it down by one, and one undoes the other.
pub proof fn law_game_counts_its_own_cursor(
    data: &mut InputBlockData,
    after: &mut InputBlockData,
    show: bool,
    first: i32,
    second: i32,
)
    requires
        i32::MIN < data.show_count < i32::MAX,
        call_ensures(InputBlockData::apply_show_cursor, (data, show), first),
        *after == *final(data),
        call_ensures(InputBlockData::apply_show_cursor, (after, !show), second),
    ensures
        first == (if show {
            old(data).show_count + 1
        } else {
            old(data).show_count - 1
        }),
        second == old(data).show_count,
        *final(after) == *old(data),
        final(data).saved_cursor == old(data).saved_cursor,
        final(data).clip_cursor == old(data).clip_cursor,
{
}

/// The cursor that the game sets is the one that it gets back at the next.
pub proof fn law_game_gets_its_cursor_back(
    data: &mut InputBlockData,
    after: &mut InputBlockData,
    cursor: isize,
    next: isize,
    first: isize,
    second: isize,
)
    requires
        call_ensures(InputBlockData::apply_set_cursor, (data, cursor), first),
        *after == *final(data),
        call_ensures(InputBlockData::apply_set_cursor, (after, next), second),
    ensures
        first == old(data).saved_cursor,
        second == cursor,
        final(after).saved_cursor == next,
        final(after).show_count == old(data).show_count,
        final(after).clip_cursor == old(data).clip_cursor,
        final(after).old_ime_cx == old(data).old_ime_cx,
        final(after).class_cursor == old(data).class_cursor,
{
}

/// Events are wanted where they are listened to, and all of them while input is
/// blocked.
pub proof fn law_blocked_input_is_listened_to(
    data: WindowProcData,
    cursor: bool,
    keyboard: bool,
    blocking: bool,
)
    requires
        call_ensures(WindowProcData::listening_cursor, (&data,), cursor),
        call_ensures(WindowProcData::listening_keyboard, (&data,), keyboard),
        call_ensures(WindowProcData::input_blocking, (&data,), blocking),
    ensures
        blocking <==> data.blocking_state is Some,
        blocking ==> cursor && keyboard,
        !blocking ==> cursor == data.listen_input.cursor && keyboard
            == data.listen_input.keyboard,
{
}

/// A window that was just found, and one that was taken back, is listened to by nobody
/// and shows the default cursor. Taking back leaves what is kept while input is blocked.
pub proof fn law_taken_back_window_is_listened_to_by_nobody(
    fresh: WindowProcData,
    data: &mut WindowProcData,
)
    requires
        call_ensures(WindowProcData::new, (), fresh),
        call_ensures(WindowProcData::reset, (data,), ()),
    ensures
        fresh.blocking_state is None,
        final(data).blocking_state == old(data).blocking_state,
        !fresh.listen_input.cursor && !fresh.listen_input.keyboard,
        !final(data).listen_input.cursor && !final(data).listen_input.keyboard,
        fresh.position == (0i32, 0i32) && final(data).position == (0i32, 0i32),
        fresh.blocking_cursor == BlockingCursor::Default && final(data).blocking_cursor
            == BlockingCursor::Default,
        fresh.hotkey == (HotkeyChord { vk: 0, modifiers: 0 }) && final(data).hotkey == (
        HotkeyChord { vk: 0, modifiers: 0 }),
        fresh.last_ime is None && final(data).last_ime is None,
        fresh.cursor_state is Outside && final(data).cursor_state == old(data).cursor_state,
        fresh.last_click_time == 0 && final(data).last_click_time == old(data).last_click_time,
{
}

/// The time between two clicks is told at the second, also across the turn of the
/// clock.
pub proof fn law_time_between_clicks(
    data: &mut WindowProcData,
    after: &mut WindowProcData,
    first: i32,
    second: i32,
    before: u32,
    delta: u32,
)
    requires
        call_ensures(WindowProcData::update_click_time, (data, first), before),
        *after == *final(data),
        call_ensures(WindowProcData::update_click_time, (after, second), delta),
    ensures
        second >= first ==> delta == second - first,
        second < first ==> delta == second - first + 0x1_0000_0000,
        final(after).last_click_time == second,
        final(after).listen_input == old(data).listen_input,
        final(after).blocking_state == old(data).blocking_state,
{
    lemma_signed_as_unsigned(first);
    lemma_signed_as_unsigned(second);
}

/// A negative number reads as one turn more without its sign.
proof fn lemma_signed_as_unsigned(n: i32)
    ensures
        n >= 0 ==> n as u32 == n,
        n < 0 ==> n as u32 == n + 0x1_0000_0000,
{
    assert(n >= 0 ==> n as u32 == n) by (bit_vector);
    assert(n < 0 ==> n as u32 == n + 0x1_0000_0000) by (bit_vector);
}

/// Raising goes on while showing the cursor answers with a negative count, and ends at
/// the first answer that is not; what it keeps is one less than the first answer, the
/// count that there was.
pub proof fn law_cursor_is_shown_until_visible(count: i32, next: i32, first: ShowPhase, second: ShowPhase)
    requires
        count > i32::MIN,
        call_ensures(show_until_visible, (ShowPhase::Start, count), first),
        call_ensures(show_until_visible, (first, next), second),
    ensures
        count > 0 ==> first == (ShowPhase::Done { saved: (count - 1) as i32 }) && second == first,
        count <= 0 ==> first == (ShowPhase::Raising { saved: (count - 1) as i32 }),
        count <= 0 && next < 0 ==> second == first,
        count <= 0 && next >= 0 ==> second == (ShowPhase::Done { saved: (count - 1) as i32 }),
{
}

/// Bringing the count back shows the cursor while the count is below its target, hides
/// it while it is above, and ends where they meet. It starts by showing, which tells
/// the count.
pub proof fn law_count_is_driven_to_its_target(
    target: i32,
    count: i32,
    phase: RestorePhase,
    next: RestorePhase,
    call: Option<bool>,
    start: Option<bool>,
)
    requires
        call_ensures(restore_show_count, (target, phase, count), next),
        call_ensures(RestorePhase::next_call, (next,), call),
        call_ensures(RestorePhase::next_call, (RestorePhase::Start,), start),
        phase is Start || phase is Lowering || (phase is Raising && count <= target),
    ensures
        start == Some(true),
        count < target ==> call == Some(true),
        count > target ==> call == Some(false),
        count == target ==> call is None,
{
}

/// A clip is tighter than the desktop when a part of the desktop is outside of it.
pub proof fn law_tight_clip_leaves_something_out(
    clip: Rect,
    desktop: Rect,
    tighter: bool,
)
    requires
        call_ensures(clip_is_tighter, (clip, desktop), tighter),
        desktop.left < desktop.right,
        desktop.top < desktop.bottom,
    ensures
        tighter <==> exists|x: int, y: int|
            desktop.left <= x < desktop.right && desktop.top <= y < desktop.bottom && !(
            #[trigger] within(clip, x, y)),
{
    if tighter {
        let x: int = if clip.left > desktop.left {
            desktop.left as int
        } else if clip.right < desktop.right {
            desktop.right - 1
        } else {
            desktop.left as int
        };
        let y: int = if clip.top > desktop.top {
            desktop.top as int
        } else if clip.bottom < desktop.bottom {
            desktop.bottom - 1
        } else {
            desktop.top as int
        };
        assert(!within(clip, x, y));
    }
}

/// Whether a rect holds a point.
pub open spec fn within(rect: Rect, x: int, y: int) -> bool {
    rect.left <= x < rect.right && rect.top <= y < rect.bottom
}

/// A class cursor is put back when there was one.
pub proof fn law_class_cursor_is_put_back(saved: usize, cursor: Option<usize>)
    requires
        call_ensures(class_cursor_to_restore, (saved,), cursor),
    ensures
        saved == 0 ==> cursor is None,
        saved != 0 ==> cursor == Some(saved),
{
}

} // verus!
