//! Interpreter of the paint command stream.
//!
//! Painting never produces mouse or keyboard input: a command ends in one of
//! the actions below, and in a line for the log.

use crate::text::{push_decimal, push_signed};
use crate::util::{mailbox_sample, MailboxSample};
use vstd::prelude::*;

verus! {

/// Cursor that is shown while the game's input is blocked.
#[derive(Clone, Copy, Debug, PartialEq, Eq, Structural)]
pub enum BlockingCursor {
    /// No cursor.
    Hidden,
    /// The arrow.
    Default,
    /// The shape with this number, as far as there is one.
    Shape(u32),
}

/// A hotkey.
#[derive(Clone, Copy, Debug, PartialEq, Eq, Structural)]
pub struct HotkeyChord {
    pub vk: u16,
    pub modifiers: u16,
}

impl Default for HotkeyChord {
    fn default() -> (chord: HotkeyChord)
        ensures
            chord == (HotkeyChord { vk: 0, modifiers: 0 }),
    {
        HotkeyChord { vk: 0, modifiers: 0 }
    }
}

/// State of the shared texture at the time of a present.
#[derive(Clone, Copy, Debug, PartialEq, Eq, Structural)]
pub struct SharedTexBusy {
    /// Its mutex is held.
    pub lock_held: bool,
    /// There is a complete copy of it.
    pub has_cache: bool,
}

/// A paint command. Numbers with a fraction are kept as the bits of a
/// single-precision float.
#[derive(Debug, PartialEq)]
pub enum PaintCmd {
    BeginFrame { timestamp: u64 },
    EndFrame,
    LoadTexture { id: u32, nbytes: u32, width: u32, height: u32 },
    DrawTexturedRect,
    DeleteTexture { id: u32 },
    Unnamed5,
    Unnamed6,
    SetCursor { cursor: i32 },
    ShowCursor { show: i32 },
    SetHotKey { chords: [[u16; 2]; 6], flag: u32 },
    ClearEveryFrame,
    Unnamed12,
    Screenshot,
    ImeCommand { inner: u32 },
    CreateCustomCursor { id: u32 },
    DeleteCursor { id: u32 },
    DrawAndUpdateSharedTexture,
    Flag18On,
    Flag18Off,
    Unnamed20,
    Unnamed21,
    MovieHotkey,
    SendTextToGame { text: Vec<u8> },
    Flag24,
    Flag25On,
    Flag25Off,
    Flag27On,
    Flag27Off,
    DrawChromePaintBufferRect { buffer_id: u64, x: u32, y: u32, width: u32, height: u32 },
    DeleteChromePaintBuffer { buffer_id: u64 },
    Unnamed31,
    Unnamed32,
    OverlayForceDisplayScale { scale: u32 },
    Unsupported { cmd: i32 },
}

/// What a command makes the overlay do.
#[derive(Clone, Copy, Debug, PartialEq, Eq, Structural)]
pub enum PaintAction {
    Nothing,
    /// Draw the shared texture.
    SharedTex(MailboxSample),
    SetBlockingCursor(BlockingCursor),
    ShowCursor { show: bool },
    SetHotKey(HotkeyChord),
    ImeCommand { inner: u32 },
    /// Place a buffer in the window.
    ChromeDest { buffer_id: u64, x: u32, y: u32, width: u32, height: u32 },
    DeleteChrome { buffer_id: u64 },
}

/// A line for the log.
#[derive(Clone, Debug, PartialEq)]
pub enum PaintLog {
    /// The stream ended within a frame.
    LeftRenderLoopWithoutEndFrame,
    /// From now on every frame is cleared.
    EnablingClearingOnEveryFrame,
    /// A screenshot was asked for.
    Screenshot,
    /// The movie hotkey was sent.
    MovieHotkey,
    /// Any other line.
    Line(String),
}

/// What a command came to.
#[derive(Clone, Debug, PartialEq)]
pub struct InterpretResult {
    pub action: PaintAction,
    pub log: Option<PaintLog>,
}

/// What the interpreter keeps between commands.
#[derive(Clone, Copy, Debug)]
pub struct PaintState {
    pub in_frame: bool,
    pub logged_clear_every_frame: bool,
    pub clear_every_frame: bool,
    pub flag_18: bool,
    pub flag_24: bool,
    pub flag_25: bool,
    pub flag_27: bool,
    pub unnamed31: bool,
    pub display_scale: u32,
    pub last_hotkey: Option<[[u16; 2]; 6]>,
    pub last_ime: Option<u32>,
}

/// Interpreter of a stream of paint commands.
#[derive(Clone, Copy, Debug)]
pub struct PaintInterpreter {
    state: PaintState,
}

impl View for PaintInterpreter {
    type V = PaintState;

    closed spec fn view(&self) -> PaintState {
        self.state
    }
}

/// Whether a chord is set.
pub open spec fn chord_is_set(chord: [u16; 2]) -> bool {
    chord@[0] != 0 || chord@[1] != 0
}

/// The first chord that is set, or no chord.
pub open spec fn first_chord(chords: Seq<[u16; 2]>) -> HotkeyChord
    decreases chords.len(),
{
    if chords.len() == 0 {
        HotkeyChord { vk: 0, modifiers: 0 }
    } else if chord_is_set(chords.first()) {
        HotkeyChord { vk: chords.first()@[0], modifiers: chords.first()@[1] }
    } else {
        first_chord(chords.drop_first())
    }
}

/// The first chord that is set, or no chord.
pub fn first_hotkey(chords: &[[u16; 2]; 6]) -> (chord: HotkeyChord)
    ensures
        chord == first_chord(chords@),
{
    let mut i: usize = 0;
    assert(chords@.skip(0) =~= chords@);
    while i < 6
        invariant
            i <= 6,
            first_chord(chords@.skip(i as int)) == first_chord(chords@),
        decreases 6 - i,
    {
        let pair = chords[i];
        assert(chords@.skip(i as int).drop_first() =~= chords@.skip(i + 1));
        if pair[0] != 0 || pair[1] != 0 {
            return HotkeyChord { vk: pair[0], modifiers: pair[1] };
        }
        i += 1;
    }
    HotkeyChord { vk: 0, modifiers: 0 }
}

/// Product of two numbers, within the range of `u32`.
pub open spec fn product(a: u32, b: u32) -> u32 {
    if a * b > u32::MAX {
        u32::MAX
    } else {
        (a * b) as u32
    }
}

fn bounded_product(a: u32, b: u32) -> (p: u32)
    ensures
        p == product(a, b),
{
    match a.checked_mul(b) {
        Some(p) => p,
        None => u32::MAX,
    }
}

/// The line for a texture that is not loaded.
pub open spec fn load_line(id: u32, nbytes: u32, width: u32, height: u32) -> Seq<char> {
    if nbytes < 1 {
        "Warning: Texture "@ + crate::text::decimal(id as nat) + " is 0 bytes... bad VGUI!"@
    } else if nbytes != product(product(width, height), 4) {
        "Texture size("@ + crate::text::decimal(nbytes as nat) + ") was != width("@
            + crate::text::decimal(width as nat) + ")*height("@ + crate::text::decimal(
            height as nat,
        ) + ")*4, not loading"@
    } else {
        "VGUI k_ELoadTexture id="@ + crate::text::decimal(id as nat)
            + " skipped (no pixel upload)"@
    }
}

/// The line for a texture that is not loaded: it is empty, it has the wrong
/// size, or pixels are not taken at all.
pub fn vgui_load_log(id: u32, nbytes: u32, width: u32, height: u32) -> (line: String)
    ensures
        line@ == load_line(id, nbytes, width, height),
{
    if nbytes < 1 {
        let mut line = String::from_str("Warning: Texture ");
        push_decimal(&mut line, id as u64);
        line.append(" is 0 bytes... bad VGUI!");
        return line;
    }
    let expected: u32 = bounded_product(bounded_product(width, height), 4);
    if nbytes != expected {
        let mut line = String::from_str("Texture size(");
        push_decimal(&mut line, nbytes as u64);
        line.append(") was != width(");
        push_decimal(&mut line, width as u64);
        line.append(")*height(");
        push_decimal(&mut line, height as u64);
        line.append(")*4, not loading");
        line
    } else {
        let mut line = String::from_str("VGUI k_ELoadTexture id=");
        push_decimal(&mut line, id as u64);
        line.append(" skipped (no pixel upload)");
        line
    }
}

/// The line for a command that there is not.
pub open spec fn unsupported_line(cmd: i32) -> Seq<char> {
    "Unsupported render command ("@ + crate::text::signed_decimal(cmd as int)
        + ") in vgui render stream"@
}

impl PaintCmd {
    /// The line for a command that there is not.
    pub fn unsupported_log(cmd: i32) -> (line: String)
        ensures
            line@ == unsupported_line(cmd),
    {
        let mut line = String::from_str("Unsupported render command (");
        push_signed(&mut line, cmd);
        line.append(") in vgui render stream");
        line
    }

    /// What the command makes the overlay do.
    pub open spec fn action(self, shared: Option<SharedTexBusy>) -> PaintAction {
        match self {
            PaintCmd::SetCursor { cursor } => PaintAction::SetBlockingCursor(
                BlockingCursor::Shape(cursor as u32),
            ),
            PaintCmd::ShowCursor { show } => PaintAction::ShowCursor { show: show != 0 },
            PaintCmd::SetHotKey { chords, .. } => PaintAction::SetHotKey(first_chord(chords@)),
            PaintCmd::ImeCommand { inner } => PaintAction::ImeCommand { inner },
            PaintCmd::CreateCustomCursor { .. } => PaintAction::SetBlockingCursor(
                BlockingCursor::Default,
            ),
            PaintCmd::DeleteCursor { .. } => PaintAction::SetBlockingCursor(BlockingCursor::Hidden),
            PaintCmd::DrawAndUpdateSharedTexture => PaintAction::SharedTex(
                match shared {
                    Some(busy) => crate::util::sampled(busy.lock_held, busy.has_cache),
                    None => MailboxSample::Live,
                },
            ),
            PaintCmd::DrawChromePaintBufferRect {
                buffer_id,
                x,
                y,
                width,
                height,
            } => PaintAction::ChromeDest { buffer_id, x, y, width, height },
            PaintCmd::DeleteChromePaintBuffer { buffer_id } => PaintAction::DeleteChrome {
                buffer_id,
            },
            _ => PaintAction::Nothing,
        }
    }

    /// Whether `log` is what the command leaves in the log.
    pub open spec fn logs(self, before: PaintState, log: Option<PaintLog>) -> bool {
        match self {
            PaintCmd::LoadTexture { id, nbytes, width, height } => log matches Some(
                PaintLog::Line(line),
            ) && line@ == load_line(id, nbytes, width, height),
            PaintCmd::ClearEveryFrame => log == (if before.logged_clear_every_frame {
                None
            } else {
                Some(PaintLog::EnablingClearingOnEveryFrame)
            }),
            PaintCmd::Screenshot => log == Some(PaintLog::Screenshot),
            PaintCmd::MovieHotkey => log == Some(PaintLog::MovieHotkey),
            PaintCmd::Unsupported { cmd } => log matches Some(PaintLog::Line(line)) && line@
                == unsupported_line(cmd),
            _ => log is None,
        }
    }
}

impl PaintState {
    /// The state before the first command.
    pub open spec fn idle() -> PaintState {
        PaintState {
            in_frame: false,
            logged_clear_every_frame: false,
            clear_every_frame: false,
            flag_18: false,
            flag_24: false,
            flag_25: false,
            flag_27: false,
            unnamed31: false,
            display_scale: 0,
            last_hotkey: None,
            last_ime: None,
        }
    }

    /// The state after a command.
    pub open spec fn after(self, cmd: PaintCmd) -> PaintState {
        match cmd {
            PaintCmd::BeginFrame { .. } => PaintState { in_frame: true, ..self },
            PaintCmd::EndFrame => PaintState { in_frame: false, ..self },
            PaintCmd::SetHotKey { chords, .. } => PaintState { last_hotkey: Some(chords), ..self },
            PaintCmd::ClearEveryFrame => PaintState {
                clear_every_frame: true,
                logged_clear_every_frame: true,
                ..self
            },
            PaintCmd::ImeCommand { inner } => PaintState { last_ime: Some(inner), ..self },
            PaintCmd::Flag18On => PaintState { flag_18: true, ..self },
            PaintCmd::Flag18Off => PaintState { flag_18: false, ..self },
            PaintCmd::Flag24 => PaintState { flag_24: true, ..self },
            PaintCmd::Flag25On => PaintState { flag_25: true, ..self },
            PaintCmd::Flag25Off => PaintState { flag_25: false, ..self },
            PaintCmd::Flag27On => PaintState { flag_27: true, ..self },
            PaintCmd::Flag27Off => PaintState { flag_27: false, ..self },
            PaintCmd::Unnamed31 => PaintState { unnamed31: true, ..self },
            PaintCmd::Unnamed32 => PaintState { unnamed31: false, ..self },
            PaintCmd::OverlayForceDisplayScale { scale } => PaintState {
                display_scale: scale,
                ..self
            },
            _ => self,
        }
    }
}

impl Default for PaintInterpreter {
    /// An interpreter between two frames.
    fn default() -> (interpreter: PaintInterpreter)
        ensures
            interpreter@ == PaintState::idle(),
    {
        PaintInterpreter::new()
    }
}

impl PaintInterpreter {
    /// An interpreter between two frames.
    pub fn new() -> (interpreter: PaintInterpreter)
        ensures
            interpreter@ == PaintState::idle(),
    {
        PaintInterpreter {
            state: PaintState {
                in_frame: false,
                logged_clear_every_frame: false,
                clear_every_frame: false,
                flag_18: false,
                flag_24: false,
                flag_25: false,
                flag_27: false,
                unnamed31: false,
                display_scale: 0,
                last_hotkey: None,
                last_ime: None,
            },
        }
    }

    /// Whether the stream is within a frame.
    pub fn in_frame(&self) -> (within: bool)
        ensures
            within == self@.in_frame,
    {
        self.state.in_frame
    }

    /// Ends the stream; leaving a frame open is noted in the log.
    pub fn finish(&mut self) -> (result: InterpretResult)
        ensures
            final(self)@ == (PaintState { in_frame: false, ..old(self)@ }),
            result.action == PaintAction::Nothing,
            result.log == (if old(self)@.in_frame {
                Some(PaintLog::LeftRenderLoopWithoutEndFrame)
            } else {
                None
            }),
    {
        if self.state.in_frame {
            self.state.in_frame = false;
            InterpretResult {
                action: PaintAction::Nothing,
                log: Some(PaintLog::LeftRenderLoopWithoutEndFrame),
            }
        } else {
            InterpretResult { action: PaintAction::Nothing, log: None }
        }
    }

    /// Takes one command. `shared` matters only for the shared texture.
    pub fn interpret(&mut self, cmd: &PaintCmd, shared: Option<SharedTexBusy>) -> (result:
        InterpretResult)
        ensures
            final(self)@ == old(self)@.after(*cmd),
            result.action == cmd.action(shared),
            cmd.logs(old(self)@, result.log),
    {
        let mut log: Option<PaintLog> = None;
        let action = match cmd {
            PaintCmd::BeginFrame { .. } => {
                self.state.in_frame = true;
                PaintAction::Nothing
            },
            PaintCmd::EndFrame => {
                self.state.in_frame = false;
                PaintAction::Nothing
            },
            PaintCmd::LoadTexture { id, nbytes, width, height } => {
                log = Some(PaintLog::Line(vgui_load_log(*id, *nbytes, *width, *height)));
                PaintAction::Nothing
            },
            PaintCmd::DrawTexturedRect
            | PaintCmd::DeleteTexture { .. }
            | PaintCmd::Unnamed5
            | PaintCmd::Unnamed6
            | PaintCmd::Unnamed12
            | PaintCmd::Unnamed20
            | PaintCmd::Unnamed21
            | PaintCmd::SendTextToGame { .. } => PaintAction::Nothing,
            PaintCmd::SetCursor { cursor } => PaintAction::SetBlockingCursor(
                BlockingCursor::Shape(*cursor as u32),
            ),
            PaintCmd::ShowCursor { show } => PaintAction::ShowCursor { show: *show != 0 },
            PaintCmd::SetHotKey { chords, .. } => {
                self.state.last_hotkey = Some(*chords);
                PaintAction::SetHotKey(first_hotkey(chords))
            },
            PaintCmd::ClearEveryFrame => {
                self.state.clear_every_frame = true;
                if !self.state.logged_clear_every_frame {
                    self.state.logged_clear_every_frame = true;
                    log = Some(PaintLog::EnablingClearingOnEveryFrame);
                }
                PaintAction::Nothing
            },
            PaintCmd::Screenshot => {
                log = Some(PaintLog::Screenshot);
                PaintAction::Nothing
            },
            PaintCmd::ImeCommand { inner } => {
                self.state.last_ime = Some(*inner);
                PaintAction::ImeCommand { inner: *inner }
            },
            PaintCmd::CreateCustomCursor { .. } => PaintAction::SetBlockingCursor(
                BlockingCursor::Default,
            ),
            PaintCmd::DeleteCursor { .. } => PaintAction::SetBlockingCursor(BlockingCursor::Hidden),
            PaintCmd::DrawAndUpdateSharedTexture => {
                let sample = match shared {
                    Some(busy) => mailbox_sample(busy.lock_held, busy.has_cache),
                    None => MailboxSample::Live,
                };
                PaintAction::SharedTex(sample)
            },
            PaintCmd::Flag18On => {
                self.state.flag_18 = true;
                PaintAction::Nothing
            },
            PaintCmd::Flag18Off => {
                self.state.flag_18 = false;
                PaintAction::Nothing
            },
            PaintCmd::MovieHotkey => {
                log = Some(PaintLog::MovieHotkey);
                PaintAction::Nothing
            },
            PaintCmd::Flag24 => {
                self.state.flag_24 = true;
                PaintAction::Nothing
            },
            PaintCmd::Flag25On => {
                self.state.flag_25 = true;
                PaintAction::Nothing
            },
            PaintCmd::Flag25Off => {
                self.state.flag_25 = false;
                PaintAction::Nothing
            },
            PaintCmd::Flag27On => {
                self.state.flag_27 = true;
                PaintAction::Nothing
            },
            PaintCmd::Flag27Off => {
                self.state.flag_27 = false;
                PaintAction::Nothing
            },
            PaintCmd::DrawChromePaintBufferRect {
                buffer_id,
                x,
                y,
                width,
                height,
            } => PaintAction::ChromeDest {
                buffer_id: *buffer_id,
                x: *x,
                y: *y,
                width: *width,
                height: *height,
            },
            PaintCmd::DeleteChromePaintBuffer { buffer_id } => PaintAction::DeleteChrome {
                buffer_id: *buffer_id,
            },
            PaintCmd::Unnamed31 => {
                self.state.unnamed31 = true;
                PaintAction::Nothing
            },
            PaintCmd::Unnamed32 => {
                self.state.unnamed31 = false;
                PaintAction::Nothing
            },
            PaintCmd::OverlayForceDisplayScale { scale } => {
                self.state.display_scale = *scale;
                PaintAction::Nothing
            },
            PaintCmd::Unsupported { cmd } => {
                log = Some(PaintLog::Line(PaintCmd::unsupported_log(*cmd)));
                PaintAction::Nothing
            },
        };
        InterpretResult { action, log }
    }
}

/// The clearing of frames is announced once, however often it is turned on.
pub proof fn law_clearing_is_logged_once(state: PaintState)
    ensures
        PaintCmd::ClearEveryFrame.logs(state.after(PaintCmd::ClearEveryFrame), None),
{
}

/// No command but the two frame marks opens or closes a frame.
pub proof fn law_frame_marks_only(state: PaintState, cmd: PaintCmd)
    requires
        !(cmd is BeginFrame),
        !(cmd is EndFrame),
    ensures
        state.after(cmd).in_frame == state.in_frame,
{
}

/// Painting ends in what each command asks for, with the numbers that it carries, and
/// in nothing else: shapes of the cursor, its display, the hotkey, the input method
/// editor, and the places of buffers. It never ends in input.
pub proof fn law_commands_do_what_they_ask_for(
    interpreter: &mut PaintInterpreter,
    cmd: PaintCmd,
    shared: Option<SharedTexBusy>,
    result: InterpretResult,
)
    requires
        call_ensures(PaintInterpreter::interpret, (interpreter, &cmd, shared), result),
    ensures
        match cmd {
            PaintCmd::SetCursor { cursor } => result.action == PaintAction::SetBlockingCursor(
                BlockingCursor::Shape(cursor as u32),
            ),
            PaintCmd::ShowCursor { show } => result.action == (PaintAction::ShowCursor {
                show: show != 0,
            }),
            PaintCmd::ImeCommand { inner } => result.action == (PaintAction::ImeCommand { inner }),
            PaintCmd::CreateCustomCursor { .. } => result.action == PaintAction::SetBlockingCursor(
                BlockingCursor::Default,
            ),
            PaintCmd::DeleteCursor { .. } => result.action == PaintAction::SetBlockingCursor(
                BlockingCursor::Hidden,
            ),
            PaintCmd::DrawChromePaintBufferRect { buffer_id, x, y, width, height } => {
                result.action matches PaintAction::ChromeDest {
                    buffer_id: id,
                    x: left,
                    y: top,
                    width: w,
                    height: h,
                } && id == buffer_id && left == x && top == y && w == width && h == height
            },
            PaintCmd::DeleteChromePaintBuffer { buffer_id } => result.action == (
            PaintAction::DeleteChrome { buffer_id }),
            PaintCmd::DrawAndUpdateSharedTexture => {
                result.action matches PaintAction::SharedTex(sample) && {
                    &&& sample is Live <==> shared is None || (shared->0).lock_held
                    &&& sample is Cache <==> shared is Some && !(shared->0).lock_held && (
                    shared->0).has_cache
                }
            },
            PaintCmd::SetHotKey { .. } => result.action is SetHotKey,
            _ => result.action is Nothing,
        },
{
}

/// The chord that counts is the first of the six that is set: the first of its numbers
/// is the key, the second its modifiers. Where none is set there is no hotkey.
pub proof fn law_first_set_chord_is_the_hotkey(
    chords: [[u16; 2]; 6],
    chord: HotkeyChord,
    i: int,
)
    requires
        call_ensures(first_hotkey, (&chords,), chord),
        0 <= i <= 6,
        forall|j: int| 0 <= j < i ==> (#[trigger] chords@[j])@[0] == 0 && chords@[j]@[1] == 0,
        i < 6 ==> chords@[i]@[0] != 0 || chords@[i]@[1] != 0,
    ensures
        i < 6 ==> chord.vk == chords@[i]@[0] && chord.modifiers == chords@[i]@[1],
        i == 6 ==> chord.vk == 0 && chord.modifiers == 0,
{
    lemma_first_chord(chords@, i);
}

proof fn lemma_first_chord(chords: Seq<[u16; 2]>, i: int)
    requires
        0 <= i <= chords.len(),
        forall|j: int| 0 <= j < i ==> (#[trigger] chords[j])@[0] == 0 && chords[j]@[1] == 0,
        i < chords.len() ==> chords[i]@[0] != 0 || chords[i]@[1] != 0,
    ensures
        first_chord(chords) == (if i < chords.len() {
            HotkeyChord { vk: chords[i]@[0], modifiers: chords[i]@[1] }
        } else {
            HotkeyChord { vk: 0, modifiers: 0 }
        }),
    decreases i,
{
    if i > 0 {
        let rest = chords.drop_first();
        assert(chords[0]@[0] == 0);
        assert forall|j: int| 0 <= j < i - 1 implies (#[trigger] rest[j])@[0] == 0 && rest[j]@[1]
            == 0 by {
            assert(rest[j] == chords[j + 1]);
        }
        if i < chords.len() {
            assert(rest[i - 1] == chords[i]);
        }
        lemma_first_chord(rest, i - 1);
    }
}

/// A hotkey command sets the first chord that it carries, and its chords are kept.
pub proof fn law_hotkey_command_sets_the_chord(
    interpreter: &mut PaintInterpreter,
    chords: [[u16; 2]; 6],
    flag: u32,
    shared: Option<SharedTexBusy>,
    result: InterpretResult,
    chord: HotkeyChord,
)
    requires
        call_ensures(
            PaintInterpreter::interpret,
            (interpreter, &PaintCmd::SetHotKey { chords, flag }, shared),
            result,
        ),
        call_ensures(first_hotkey, (&chords,), chord),
    ensures
        result.action == PaintAction::SetHotKey(chord),
        result.log is None,
        final(interpreter)@.last_hotkey == Some(chords),
        final(interpreter)@.in_frame == old(interpreter)@.in_frame,
        final(interpreter)@.last_ime == old(interpreter)@.last_ime,
{
}

/// Each switch is moved by its own commands: on by one and off by another, where there
/// is one. No command moves a switch that is not its own; the marks of a frame open and
/// close it.
pub proof fn law_commands_move_their_own_switch(
    interpreter: &mut PaintInterpreter,
    cmd: PaintCmd,
    shared: Option<SharedTexBusy>,
    result: InterpretResult,
    within: bool,
)
    requires
        call_ensures(PaintInterpreter::interpret, (interpreter, &cmd, shared), result),
        call_ensures(PaintInterpreter::in_frame, (&*final(interpreter),), within),
    ensures
        ({
            let was = old(interpreter)@;
            let is = final(interpreter)@;
            &&& is.in_frame == (cmd is BeginFrame || (was.in_frame && !(cmd is EndFrame)))
            &&& within == is.in_frame
            &&& is.clear_every_frame == (cmd is ClearEveryFrame || was.clear_every_frame)
            &&& is.flag_18 == (cmd is Flag18On || (was.flag_18 && !(cmd is Flag18Off)))
            &&& is.flag_24 == (cmd is Flag24 || was.flag_24)
            &&& is.flag_25 == (cmd is Flag25On || (was.flag_25 && !(cmd is Flag25Off)))
            &&& is.flag_27 == (cmd is Flag27On || (was.flag_27 && !(cmd is Flag27Off)))
            &&& is.unnamed31 == (cmd is Unnamed31 || (was.unnamed31 && !(cmd is Unnamed32)))
            &&& cmd matches PaintCmd::OverlayForceDisplayScale { scale } ==> is.display_scale
                == scale
            &&& !(cmd is OverlayForceDisplayScale) ==> is.display_scale == was.display_scale
            &&& cmd matches PaintCmd::ImeCommand { inner } ==> is.last_ime == Some(inner)
            &&& !(cmd is ImeCommand) ==> is.last_ime == was.last_ime
            &&& !(cmd is SetHotKey) ==> is.last_hotkey == was.last_hotkey
        }),
{
}

/// What is logged: a screenshot, the movie hotkey, a command that there is not, a
/// texture that is not loaded, and that clearing was turned on, the first time. Nothing
/// else is.
pub proof fn law_only_some_commands_are_logged(
    interpreter: &mut PaintInterpreter,
    cmd: PaintCmd,
    shared: Option<SharedTexBusy>,
    result: InterpretResult,
)
    requires
        call_ensures(PaintInterpreter::interpret, (interpreter, &cmd, shared), result),
    ensures
        result.log is Some <==> cmd is LoadTexture || cmd is Screenshot || cmd is MovieHotkey
            || cmd is Unsupported || (cmd is ClearEveryFrame && !old(
            interpreter,
        )@.logged_clear_every_frame),
        cmd is Screenshot ==> result.log == Some(PaintLog::Screenshot),
        cmd is MovieHotkey ==> result.log == Some(PaintLog::MovieHotkey),
        cmd is ClearEveryFrame && result.log is Some ==> result.log == Some(
            PaintLog::EnablingClearingOnEveryFrame,
        ),
        final(interpreter)@.logged_clear_every_frame == (cmd is ClearEveryFrame || old(
            interpreter,
        )@.logged_clear_every_frame),
{
}

/// The end of a stream closes the frame; one that was open is logged, once.
pub proof fn law_open_frame_is_logged_at_the_end(
    interpreter: &mut PaintInterpreter,
    again: &mut PaintInterpreter,
    first: InterpretResult,
    second: InterpretResult,
    fresh: PaintInterpreter,
)
    requires
        call_ensures(PaintInterpreter::finish, (interpreter,), first),
        *again == *final(interpreter),
        call_ensures(PaintInterpreter::finish, (again,), second),
        call_ensures(PaintInterpreter::new, (), fresh),
    ensures
        first.action is Nothing,
        first.log is Some <==> old(interpreter)@.in_frame,
        first.log is Some ==> first.log == Some(PaintLog::LeftRenderLoopWithoutEndFrame),
        !final(interpreter)@.in_frame,
        second.log is None,
        final(interpreter)@.clear_every_frame == old(interpreter)@.clear_every_frame,
        final(interpreter)@.last_hotkey == old(interpreter)@.last_hotkey,
        !fresh@.in_frame && !fresh@.clear_every_frame && !fresh@.flag_18 && !fresh@.flag_24
            && !fresh@.flag_25 && !fresh@.flag_27 && !fresh@.unnamed31 && fresh@.display_scale == 0
            && fresh@.last_hotkey is None && fresh@.last_ime is None,
{
}

/// The line for a texture tells why it is not loaded, and names it: an empty one by its
/// number, one whose size is not its width times its height times four by the three
/// numbers, any other by its number. The line for a command that there is not names it.
pub proof fn law_lines_name_what_they_are_about(
    id: u32,
    nbytes: u32,
    width: u32,
    height: u32,
    line: String,
    cmd: i32,
    other: String,
)
    requires
        call_ensures(vgui_load_log, (id, nbytes, width, height), line),
        call_ensures(PaintCmd::unsupported_log, (cmd,), other),
    ensures
        nbytes == 0 ==> line@ == "Warning: Texture "@ + crate::text::decimal(id as nat)
            + " is 0 bytes... bad VGUI!"@,
        nbytes > 0 && nbytes == width * height * 4 ==> line@ == "VGUI k_ELoadTexture id="@
            + crate::text::decimal(id as nat) + " skipped (no pixel upload)"@,
        nbytes > 0 && width * height * 4 <= u32::MAX && nbytes != width * height * 4 ==> line@
            == "Texture size("@ + crate::text::decimal(nbytes as nat) + ") was != width("@
            + crate::text::decimal(width as nat) + ")*height("@ + crate::text::decimal(
            height as nat,
        ) + ")*4, not loading"@,
        nbytes < u32::MAX && width * height * 4 > u32::MAX && nbytes > 0 ==> line@
            == "Texture size("@ + crate::text::decimal(nbytes as nat) + ") was != width("@
            + crate::text::decimal(width as nat) + ")*height("@ + crate::text::decimal(
            height as nat,
        ) + ")*4, not loading"@,
        cmd >= 0 ==> other@ == "Unsupported render command ("@ + crate::text::decimal(cmd as nat)
            + ") in vgui render stream"@,
        cmd < 0 ==> other@ == "Unsupported render command ("@ + (seq!['-'] + crate::text::decimal(
            (-cmd) as nat,
        )) + ") in vgui render stream"@,
{
    assert(width * height >= 0) by (nonlinear_arith);
    assert((width * height) * 4 == width * height * 4);
}

/// An interpreter starts outside of a frame with nothing asked for, and no chord
/// is set by default.
pub proof fn law_interpreter_starts_idle(interpreter: PaintInterpreter, chord: HotkeyChord)
    requires
        call_ensures(PaintInterpreter::default, (), interpreter),
        call_ensures(HotkeyChord::default, (), chord),
    ensures
        !interpreter@.in_frame && !interpreter@.clear_every_frame,
        !interpreter@.logged_clear_every_frame,
        !interpreter@.flag_18 && !interpreter@.flag_24 && !interpreter@.flag_25
            && !interpreter@.flag_27 && !interpreter@.unnamed31,
        interpreter@.display_scale == 0,
        interpreter@.last_hotkey is None && interpreter@.last_ime is None,
        chord.vk == 0 && chord.modifiers == 0,
{
}

} // verus!
