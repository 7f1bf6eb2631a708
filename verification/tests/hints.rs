//! Captured frames, frame waits, presents and the mailbox.

use glint_overlay::backend::window::InputBlockData;
use glint_overlay::backend::window::input_ll::LowLevelInput;
use glint_overlay::backend::{Backends, WindowBackend};
use glint_overlay::capture::{
    classify_captured_format, cpu_byte_len, ingest_captured_frame, CapturedFormat,
    LastCapturedFrame, MAX_CPU_BYTES,
};
use glint_overlay::cef_frame::{
    cef_frame_event_name, cef_frame_wait_disabled, frame_event, wait_cef_frame_with,
    wait_for_cef_frame, CEF_FRAME_WAIT_CAP_MS,
};
use glint_overlay::compositor::{independent_active, INDEPENDENT_SCANOUT};
use glint_overlay::coop::{
    b_overlay_needs_present, is_interactive, is_overlay_enabled, needs_present,
    overlay_is_using_input, pending_mailbox, renderer_wants, using_device, NEEDS_PRESENT_MS,
};
use glint_overlay::event::GpuLuid;
use glint_overlay::geometry::Rect;
use glint_overlay::texture::{OverlayTextureState, SharedHandle, UpdateSharedHandle};
use glint_overlay::util::{
    after_original_present, find_adapter_by_luid, get_client_size, keyed_mutex_lock_held,
    mailbox_sample, with_keyed_mutex, with_keyed_mutex_sampled, HeldMutexes, MailboxSample,
    KEYED_MUTEX_TIMEOUT_MS, WAIT_ABANDONED,
};

const WAIT_TIMEOUT: i32 = 0x102;
const E_FAIL: i32 = 0x8000_4005u32 as i32;

fn nothing(_len: usize) -> Vec<u8> {
    panic!("a shared frame is not read")
}

#[test]
fn a2_0x1000_is_shared_rgb() {
    assert_eq!(classify_captured_format(0x1000), CapturedFormat::SharedRgb);
}

#[test]
fn a2_0x2000_is_shared_bgr() {
    assert_eq!(classify_captured_format(0x2000), CapturedFormat::SharedBgr);
}

#[test]
fn a2_0x4000_is_shared_nv12() {
    assert_eq!(classify_captured_format(0x4000), CapturedFormat::SharedNv12);
}

#[test]
fn a2_0x8000_is_shared_p010() {
    assert_eq!(classify_captured_format(0x8000), CapturedFormat::SharedP010);
}

#[test]
fn a2_512_is_nv12() {
    assert_eq!(classify_captured_format(512), CapturedFormat::Nv12);
}

#[test]
fn a2_other_is_rgb() {
    assert_eq!(classify_captured_format(0), CapturedFormat::Rgb);
    assert_eq!(classify_captured_format(1), CapturedFormat::Rgb);
    assert_eq!(classify_captured_format(256), CapturedFormat::Rgb);
    assert_eq!(classify_captured_format(0x1234), CapturedFormat::Rgb);
}

#[test]
fn ingest_overwrites_last_slot() {
    let mut last = None;
    assert_eq!(ingest_captured_frame(&mut last, 0x1000, 0x11, 4, 2, 2, nothing), 1);
    assert_eq!(ingest_captured_frame(&mut last, 0x2000, 0x22, 8, 4, 3, nothing), 1);
    assert_eq!(
        last,
        Some(LastCapturedFrame::Shared {
            format: CapturedFormat::SharedBgr,
            handle: 0x22,
            width: 4,
            height: 3,
            stride: 8,
        })
    );

    let first = [1u8, 2, 3, 4];
    assert_eq!(
        ingest_captured_frame(&mut last, 0, first.as_ptr() as i64, 4, 1, 1, |len| {
            first[..len].to_vec()
        }),
        1
    );
    let second = [9u8; 8];
    assert_eq!(
        ingest_captured_frame(&mut last, 0, second.as_ptr() as i64, 4, 2, 2, |len| {
            second[..len].to_vec()
        }),
        1
    );
    match last {
        Some(LastCapturedFrame::Cpu { format, width, height, stride, bytes }) => {
            assert_eq!(format, CapturedFormat::Rgb);
            assert_eq!((width, height, stride), (2, 2, 4));
            assert_eq!(bytes, second);
        }
        other => panic!("expected cpu rgb overwrite, got {other:?}"),
    }
}

#[test]
fn copies_are_bounded() {
    assert_eq!(cpu_byte_len(CapturedFormat::Rgb, 4, 3), Some(12));
    assert_eq!(cpu_byte_len(CapturedFormat::Nv12, 4, 4), Some(24));
    let mut last = None;
    let rows = (MAX_CPU_BYTES / 1024 + 1) as i32;
    assert_eq!(ingest_captured_frame(&mut last, 0, 1, 1024, 1, rows, nothing), 1);
    match last {
        Some(LastCapturedFrame::Cpu { bytes, .. }) => assert!(bytes.is_empty()),
        other => panic!("{other:?}"),
    }
}

#[test]
fn env_set_skips_wait() {
    assert!(cef_frame_wait_disabled(Some("1")));
    assert!(cef_frame_wait_disabled(Some("true")));
    assert!(!cef_frame_wait_disabled(None));
    assert!(!cef_frame_wait_disabled(Some("")));
}

#[test]
fn timeout_zero_then_adaptive() {
    let mut adaptive = 0;
    let mut timeouts = Vec::new();
    let signaled = wait_cef_frame_with(
        |ms| {
            timeouts.push(ms);
            false
        },
        &mut adaptive,
    );
    assert!(!signaled);
    assert_eq!(timeouts[0], 0);
    assert!(timeouts[1] <= CEF_FRAME_WAIT_CAP_MS);
    assert!(adaptive <= CEF_FRAME_WAIT_CAP_MS);
}

#[test]
fn timeout_zero_signaled_skips_adaptive() {
    let mut adaptive = 12;
    let mut timeouts = Vec::new();
    let signaled = wait_cef_frame_with(
        |ms| {
            timeouts.push(ms);
            true
        },
        &mut adaptive,
    );
    assert!(signaled);
    assert_eq!(timeouts, vec![0]);
    assert_eq!(adaptive, 12);
}

#[test]
fn adaptive_wait_capped_at_50() {
    let mut adaptive = CEF_FRAME_WAIT_CAP_MS;
    let mut timeouts = Vec::new();
    wait_cef_frame_with(
        |ms| {
            timeouts.push(ms);
            false
        },
        &mut adaptive,
    );
    assert_eq!(timeouts, vec![0, CEF_FRAME_WAIT_CAP_MS]);
    assert_eq!(adaptive, CEF_FRAME_WAIT_CAP_MS);
}

#[test]
fn event_name_is_per_session() {
    assert_eq!(cef_frame_event_name(4242), "Local\\GlintCefFrame-4242");
    assert_eq!(cef_frame_event_name(0), "Local\\GlintCefFrame-0");
    assert_eq!(cef_frame_event_name(u32::MAX), "Local\\GlintCefFrame-4294967295");
}

#[test]
fn independent_scanout_is_off() {
    assert!(!INDEPENDENT_SCANOUT);
    assert!(!independent_active());
}

#[test]
fn stale_after_6s_needs_present() {
    assert!(needs_present(NEEDS_PRESENT_MS + 1, 0, false));
}

#[test]
fn exactly_6s_does_not_need_present() {
    assert!(!needs_present(NEEDS_PRESENT_MS, 0, false));
}

#[test]
fn under_6s_without_renderer_does_not_need_present() {
    assert!(!needs_present(NEEDS_PRESENT_MS - 1, 0, false));
}

#[test]
fn wraparound_needs_present() {
    assert!(needs_present(10, u32::MAX, false));
}

#[test]
fn renderer_wants_needs_present_even_when_fresh() {
    assert!(needs_present(100, 100, true));
}

#[test]
fn stamp_on_true_resets_the_6s_window() {
    let tick = NEEDS_PRESENT_MS + 1;
    assert!(needs_present(tick, 0, false));
    let last = tick;
    assert!(!needs_present(tick + 100, last, false));
    assert!(needs_present(tick + NEEDS_PRESENT_MS + 1, last, false));
}

#[test]
fn renderer_wants_is_interactive_or_pending_mailbox() {
    assert!(renderer_wants(true, false));
    assert!(renderer_wants(false, true));
    assert!(!renderer_wants(false, false));
}

#[test]
fn using_device_follows_interactive() {
    assert!(using_device(true));
    assert!(!using_device(false));
}

#[test]
fn hints_follow_the_windows() {
    let mut backends = Backends::new();
    let mut last = 0;
    assert!(is_overlay_enabled());
    assert!(!overlay_is_using_input(&backends));
    assert!(!b_overlay_needs_present(&mut last, 100, &backends, &vec![false]));
    assert_eq!(last, 0);
    assert!(pending_mailbox(&vec![false, true]));
    assert!(b_overlay_needs_present(&mut last, 200, &backends, &vec![true]));
    assert_eq!(last, 200);

    let mut window = WindowBackend::new(7, GpuLuid { low: 1, high: 0 }, (800, 600));
    let mut route = LowLevelInput::new();
    let data = InputBlockData {
        clip_cursor: None,
        old_ime_cx: 0,
        show_count: 0,
        saved_cursor: 0,
        class_cursor: 0,
    };
    let start = window.begin_block().unwrap();
    assert!(window.finish_block(start, data, &mut route));
    backends.put(7, window);
    assert!(is_interactive(&backends));
    assert!(overlay_is_using_input(&backends));
    assert!(b_overlay_needs_present(&mut last, 300, &backends, &vec![]));
    assert_eq!(last, 300);
}

fn handle(v: u32) -> UpdateSharedHandle {
    UpdateSharedHandle { handle: Some(SharedHandle::new(v).unwrap()) }
}

#[test]
fn same_handle_does_not_reopen_htexture() {
    let mut s = OverlayTextureState::Empty;
    s.update(handle(7));
    s.get_or_create(|_| Ok::<_, ()>(Some(1))).unwrap();
    s.update(handle(7));
    let mut creates = 0;
    let got = s
        .get_or_create(|_| {
            creates += 1;
            Ok::<_, ()>(Some(99))
        })
        .unwrap();
    assert_eq!(got, Some(&mut 1));
    assert_eq!(creates, 0);
}

#[test]
fn new_handle_reopens() {
    let mut s = OverlayTextureState::Empty;
    s.update(handle(7));
    s.get_or_create(|_| Ok::<_, ()>(Some(1))).unwrap();
    s.update(handle(8));
    let mut creates = 0;
    let got = s
        .get_or_create(|_| {
            creates += 1;
            Ok::<_, ()>(Some(2))
        })
        .unwrap();
    assert_eq!(got, Some(&mut 2));
    assert_eq!(creates, 1);
}

#[test]
fn new_handle_keeps_old_htexture_if_reopen_fails() {
    let mut s = OverlayTextureState::Empty;
    s.update(handle(7));
    s.get_or_create(|_| Ok::<_, ()>(Some(1))).unwrap();
    s.update(handle(8));
    let got = s.get_or_create(|_| Ok::<_, ()>(None)).unwrap();
    assert_eq!(got, Some(&mut 1));
}

#[test]
fn none_handle_clears_layer() {
    let mut s = OverlayTextureState::Empty;
    s.update(handle(7));
    s.get_or_create(|_| Ok::<_, ()>(Some(1))).unwrap();
    s.update(UpdateSharedHandle { handle: None });
    assert!(s.get_or_create(|_| Ok::<_, ()>(Some(99))).unwrap().is_none());
}

#[test]
fn failed_opening_is_told() {
    let mut s: OverlayTextureState<i32> = OverlayTextureState::new();
    s.update(handle(7));
    assert_eq!(s.get_or_create(|h| Err(h.raw)), Err(7));
}

#[test]
fn zero_is_no_handle() {
    assert_eq!(SharedHandle::new(0), None);
    assert_eq!(SharedHandle::new(5).map(|h| h.raw), Some(5));
}

#[test]
fn keyed_mutex_timeout_ms_is_zero() {
    assert_eq!(KEYED_MUTEX_TIMEOUT_MS, 0);
}

#[test]
fn keyed_mutex_timeout_does_not_skip_draw() {
    let mut drew = false;
    let held = keyed_mutex_lock_held(WAIT_TIMEOUT).expect("timeout is not a hard fail");
    assert!(!held);
    if keyed_mutex_lock_held(WAIT_TIMEOUT).is_ok() {
        drew = true;
    }
    assert!(drew);
}

#[test]
fn keyed_mutex_hard_fail_skips_draw() {
    assert!(keyed_mutex_lock_held(E_FAIL).is_err());
}

#[test]
fn keyed_mutex_ok_holds_lock() {
    assert!(keyed_mutex_lock_held(0).unwrap());
    assert!(keyed_mutex_lock_held(WAIT_ABANDONED).unwrap());
}

#[test]
fn timeout_with_cache_samples_cache_not_live() {
    assert_eq!(mailbox_sample(false, true), MailboxSample::Cache);
}

#[test]
fn lock_or_no_cache_samples_live() {
    assert_eq!(mailbox_sample(true, true), MailboxSample::Live);
    assert_eq!(mailbox_sample(true, false), MailboxSample::Live);
    assert_eq!(mailbox_sample(false, false), MailboxSample::Skip);
}

#[test]
fn after_original_present_releases_after_trampoline() {
    let mut holds = HeldMutexes::new();
    holds.park_keyed_mutex(0x51);
    let mut presents = 0;
    let (hr, released) = after_original_present(&mut holds, || {
        presents += 1;
        7
    });
    assert_eq!(presents, 1);
    assert_eq!(released, vec![0x51]);
    assert_eq!(hr, 7);
    assert!(!holds.keyed_mutex_already_held(0x51));
}

#[test]
fn parked_mutex_is_not_acquired_again() {
    let mut holds = HeldMutexes::new();
    let got = with_keyed_mutex_sampled(
        &mut holds,
        Some(0x51),
        |mutex, timeout| {
            assert_eq!((mutex, timeout), (0x51, 0));
            0
        },
        |held| held,
    );
    assert_eq!(got, Ok(Some(true)));
    assert!(holds.keyed_mutex_already_held(0x51));
    let again = with_keyed_mutex_sampled(&mut holds, Some(0x51), |_, _| E_FAIL, |held| held);
    assert_eq!(again, Ok(Some(true)));
}

#[test]
fn busy_mutex_runs_without_the_lock() {
    let mut holds = HeldMutexes::new();
    let got = with_keyed_mutex_sampled(&mut holds, Some(0x51), |_, _| WAIT_TIMEOUT, |held| held);
    assert_eq!(got, Ok(Some(false)));
    assert!(!holds.keyed_mutex_already_held(0x51));
    let failed = with_keyed_mutex_sampled(&mut holds, Some(0x51), |_, _| E_FAIL, |held| held);
    assert_eq!(failed, Ok(None));
    assert!(!holds.keyed_mutex_already_held(0x51));
    let none = with_keyed_mutex_sampled(&mut holds, None, |_, _| E_FAIL, |held| held);
    assert_eq!(none, Ok(Some(true)));
}

#[test]
fn plain_mutex_is_released_where_it_was_held() {
    assert_eq!(with_keyed_mutex(Some(3), |_, _| 0, || 9), Ok(Some((9, true))));
    assert_eq!(with_keyed_mutex(Some(3), |_, _| WAIT_TIMEOUT, || 9), Ok(Some((9, false))));
    assert_eq!(with_keyed_mutex(None, |_, _| E_FAIL, || 9), Ok(Some((9, false))));
}

#[test]
fn hard_failure_of_the_mutex_runs_nothing() {
    let ran = std::cell::Cell::new(false);
    let got = with_keyed_mutex(Some(3), |_, _| E_FAIL, || ran.set(true));
    assert_eq!(got, Ok(None));
    assert!(!ran.get());
}

#[test]
fn client_size_is_the_span_of_the_rect() {
    let size = get_client_size(Rect { left: 0, top: 0, right: 640, bottom: 480 });
    assert_eq!(size, (640, 480));
}

#[test]
fn adapter_is_found_by_its_luid() {
    let luid = |low: u32| GpuLuid { low, high: 0 };
    let adapters = vec![Some(luid(1)), None, Some(luid(2)), Some(luid(2))];
    assert_eq!(find_adapter_by_luid(&adapters, luid(2)), Some(2));
    assert_eq!(find_adapter_by_luid(&adapters, luid(9)), None);
}

#[test]
fn frame_event_is_opened_once() {
    let mut slot = None;
    assert_eq!(frame_event(&mut slot, || None), None);
    assert_eq!(slot, None);
    assert_eq!(frame_event(&mut slot, || Some(7)), Some(7));
    assert_eq!(slot, Some(7));
    assert_eq!(frame_event(&mut slot, || panic!("opened again")), Some(7));
}

#[test]
fn wait_for_frame_polls_then_waits() {
    let asked = std::cell::RefCell::new(Vec::new());
    let miss = |event: isize, timeout: u32| {
        asked.borrow_mut().push((event, timeout));
        false
    };
    let mut slot = None;
    let mut bound: u32 = 0;

    let off = wait_for_cef_frame(Some("1"), &mut slot, || Some(3), &miss, &mut bound);
    assert_eq!((off, slot, bound), (None, None, 0));

    let nobody = wait_for_cef_frame(None, &mut slot, || None, &miss, &mut bound);
    assert_eq!((nobody, slot, bound), (None, None, 0));
    assert!(asked.borrow().is_empty());

    let missed = wait_for_cef_frame(Some(""), &mut slot, || Some(3), &miss, &mut bound);
    assert_eq!((missed, slot, bound), (Some(false), Some(3), 12));
    assert_eq!(*asked.borrow(), vec![(3, 0), (3, 1)]);

    let hit = |_: isize, timeout: u32| timeout == 12;
    let late = wait_for_cef_frame(None, &mut slot, || None, &hit, &mut bound);
    assert_eq!((late, slot, bound), (Some(true), Some(3), 12));
}
