//! The interpreter of paint commands.

use glint_overlay::paint_cmd::{
    first_hotkey, vgui_load_log, BlockingCursor, HotkeyChord, PaintAction,
    PaintCmd, PaintInterpreter, PaintLog, SharedTexBusy,
};
use glint_overlay::util::MailboxSample;

#[test]
fn unknown_logs_steam_string() {
    let mut interp = PaintInterpreter::new();
    let r = interp.interpret(&PaintCmd::Unsupported { cmd: 2 }, None);
    assert_eq!(
        r.log,
        Some(PaintLog::Line(String::from(
            "Unsupported render command (2) in vgui render stream"
        )))
    );
    assert_eq!(r.action, PaintAction::Nothing);
}

#[test]
fn log_lines_spell_their_numbers() {
    assert_eq!(
        PaintCmd::unsupported_log(-7),
        "Unsupported render command (-7) in vgui render stream"
    );
    assert_eq!(
        PaintCmd::unsupported_log(i32::MIN),
        "Unsupported render command (-2147483648) in vgui render stream"
    );
    let mut interp = PaintInterpreter::new();
    let r = interp.interpret(
        &PaintCmd::LoadTexture { id: 1, nbytes: 64, width: 4, height: 4 },
        None,
    );
    assert_eq!(r.log, Some(PaintLog::Line(vgui_load_log(1, 64, 4, 4))));
}

#[test]
fn opcode_17_busy_still_draws_cache() {
    let mut interp = PaintInterpreter::new();
    let r = interp.interpret(
        &PaintCmd::DrawAndUpdateSharedTexture,
        Some(SharedTexBusy { lock_held: false, has_cache: true }),
    );
    assert_eq!(r.action, PaintAction::SharedTex(MailboxSample::Cache));
}

#[test]
fn opcode_17_busy_no_cache_skips() {
    let mut interp = PaintInterpreter::new();
    let r = interp.interpret(
        &PaintCmd::DrawAndUpdateSharedTexture,
        Some(SharedTexBusy { lock_held: false, has_cache: false }),
    );
    assert_eq!(r.action, PaintAction::SharedTex(MailboxSample::Skip));
}

#[test]
fn begin_end_frame_batch() {
    let mut interp = PaintInterpreter::new();
    interp.interpret(&PaintCmd::BeginFrame { timestamp: 1 }, None);
    assert!(interp.in_frame());
    interp.interpret(&PaintCmd::EndFrame, None);
    assert!(!interp.in_frame());
    assert!(interp.finish().log.is_none());
}

#[test]
fn missing_end_frame_logs() {
    let mut interp = PaintInterpreter::new();
    interp.interpret(&PaintCmd::BeginFrame { timestamp: 0 }, None);
    let r = interp.finish();
    assert_eq!(r.log, Some(PaintLog::LeftRenderLoopWithoutEndFrame));
    assert!(interp.finish().log.is_none());
}

#[test]
fn chrome_rect_and_delete() {
    let mut interp = PaintInterpreter::new();
    let r = interp.interpret(
        &PaintCmd::DrawChromePaintBufferRect {
            buffer_id: 1,
            x: 10.0f32.to_bits(),
            y: 20.0f32.to_bits(),
            width: 100.0f32.to_bits(),
            height: 50.0f32.to_bits(),
        },
        None,
    );
    assert_eq!(
        r.action,
        PaintAction::ChromeDest {
            buffer_id: 1,
            x: 10.0f32.to_bits(),
            y: 20.0f32.to_bits(),
            width: 100.0f32.to_bits(),
            height: 50.0f32.to_bits(),
        }
    );
    let r = interp.interpret(&PaintCmd::DeleteChromePaintBuffer { buffer_id: 1 }, None);
    assert_eq!(r.action, PaintAction::DeleteChrome { buffer_id: 1 });
}

#[test]
fn paint_does_not_inject_input() {
    let mut interp = PaintInterpreter::new();
    let text = interp.interpret(&PaintCmd::SendTextToGame { text: b"hi".to_vec() }, None);
    assert_eq!(text.action, PaintAction::Nothing);
    let ime = interp.interpret(&PaintCmd::ImeCommand { inner: 1 }, None);
    assert_eq!(ime.action, PaintAction::ImeCommand { inner: 1 });
    assert!(!matches!(
        ime.action,
        PaintAction::SetBlockingCursor(_) | PaintAction::SharedTex(_)
    ));
    let hot = interp.interpret(
        &PaintCmd::SetHotKey {
            chords: [[0x09, 0x1], [0; 2], [0; 2], [0; 2], [0; 2], [0; 2]],
            flag: 0,
        },
        None,
    );
    assert_eq!(
        hot.action,
        PaintAction::SetHotKey(HotkeyChord { vk: 0x09, modifiers: 0x1 })
    );
}

#[test]
fn set_show_create_delete_cursor_have_apply_actions() {
    let mut interp = PaintInterpreter::new();
    assert_eq!(
        interp.interpret(&PaintCmd::SetCursor { cursor: 0 }, None).action,
        PaintAction::SetBlockingCursor(BlockingCursor::Shape(0))
    );
    assert_eq!(
        interp.interpret(&PaintCmd::ShowCursor { show: 0 }, None).action,
        PaintAction::ShowCursor { show: false }
    );
    assert_eq!(
        interp.interpret(&PaintCmd::ShowCursor { show: 1 }, None).action,
        PaintAction::ShowCursor { show: true }
    );
    assert_eq!(
        interp.interpret(&PaintCmd::CreateCustomCursor { id: 3 }, None).action,
        PaintAction::SetBlockingCursor(BlockingCursor::Default)
    );
    assert_eq!(
        interp.interpret(&PaintCmd::DeleteCursor { id: 3 }, None).action,
        PaintAction::SetBlockingCursor(BlockingCursor::Hidden)
    );
}

#[test]
fn first_nonzero_hotkey_pair_wins() {
    let chords = [[0, 0], [0x09, 0x1], [0x20, 0x2], [0; 2], [0; 2], [0; 2]];
    assert_eq!(first_hotkey(&chords), HotkeyChord { vk: 0x09, modifiers: 0x1 });
    assert_eq!(first_hotkey(&[[0; 2]; 6]), HotkeyChord::default());
}

#[test]
fn clearing_every_frame_is_logged_once() {
    let mut interp = PaintInterpreter::new();
    assert_eq!(
        interp.interpret(&PaintCmd::ClearEveryFrame, None).log,
        Some(PaintLog::EnablingClearingOnEveryFrame)
    );
    assert_eq!(interp.interpret(&PaintCmd::ClearEveryFrame, None).log, None);
}

#[test]
fn default_interpreter_is_idle() {
    let interp = PaintInterpreter::default();
    assert!(!interp.in_frame());
}
