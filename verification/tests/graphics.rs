//! The graphics hooks and what they keep of swapchains and devices.

use glint_overlay::backend::render::{RenderData, Renderer};
use glint_overlay::backend::{Backends, WindowBackend};
use glint_overlay::compositor::{independent_active, INDEPENDENT_SCANOUT};
use glint_overlay::event::{GpuLuid, OverlayEvent, WindowEvent};
use glint_overlay::event_sink::OverlayEventSink;
use glint_overlay::hook::d3d8::{hwnd_from_d3d8_params, Devices, PresentParams, D3D8_PARAMS_HWND};
use glint_overlay::hook::ddraw::{is_dd7, Ddraw, IID_IDIRECTDRAW7};
use glint_overlay::hook::dx::dx12::{
    dx12_ready, pick_dx12_overlay_queue, steam_overlay_disable_dx12, Queues,
};
use glint_overlay::hook::dx::dx9::{
    after_release, cleanup_renderer, draws_in, present_window, Hook, Site,
};
use glint_overlay::hook::dx::dxgi::factory::{wraps_factory, Hooks as FactoryHooks};
use glint_overlay::hook::dx::dxgi::{
    dx11_device_qi, present_apis, present_draw_apis, present_hung_or_removed, should_blit,
    should_overlay, Chains, DXGI_PRESENT_TEST,
};
use glint_overlay::hook::dx::render_gate::{adopt_renderer, DrawGate};
use glint_overlay::hook::dx::renderer_map::with_map_entry;
use glint_overlay::hook::dx::{
    cached_rtv_get_or_insert, cached_rtv_invalidate, create_then_wrap, draw_overlay, finish_frame,
    hook, perform_steps, wrap_created, Api, DxPart, LayerStep,
};
use glint_overlay::hook::fg::{fg_plan, resolve_sldlssg, FgPlan, Modules};
use glint_overlay::hook::late::{attach_when_loaded, AttachWhenLoaded};
use glint_overlay::hook::mailbox::{begin_blit, blit_plan, finish_blit, BlitPlan};
use glint_overlay::hook::mantle::{hwnd_from_present_info, mantle_module};
use glint_overlay::int_map::WordTable;

fn luid() -> GpuLuid {
    GpuLuid { low: 1, high: 0 }
}

#[test]
fn hook_without_d3d8_is_ok_and_requires_no_detours() {
    let mut hooks: Option<usize> = None;
    assert_eq!(
        attach_when_loaded(None::<usize>, &mut hooks, |module| module),
        AttachWhenLoaded::Skipped
    );
    assert!(hooks.is_none(), "miss must not latch empty (late LoadLibrary re-calls hook)");
}

#[test]
fn params_hwnd_is_at_offset_24() {
    assert_eq!(D3D8_PARAMS_HWND, 24);
    let p = PresentParams { device_window: 0x1234 };
    assert_eq!(hwnd_from_d3d8_params(Some(p), 0), 0x1234);
    assert_eq!(hwnd_from_d3d8_params(None, 0), 0);
    assert_eq!(hwnd_from_d3d8_params(Some(PresentParams { device_window: 0 }), 0x77), 0x77);
}

#[test]
fn present_override_wins() {
    let mut devices = Devices::new();
    devices.wrap_device(0x100, 0x2222, true, || Some(1));
    assert_eq!(devices.present_hwnd(0x100, 0x3333), 0x3333);
    assert_eq!(devices.present_hwnd(0x100, 0), 0x2222);
    assert_eq!(devices.present_hwnd(0x200, 0), 0);
}

#[test]
fn created_device_presents_in_its_window() {
    let mut devices = Devices::new();
    devices.after_create_device(-1, Some(0x100), None, 0x44, true, || Some(1));
    assert_eq!(devices.present_hwnd(0x100, 0), 0);
    devices.after_create_device(0, Some(0x100), None, 0x44, true, || Some(1));
    assert_eq!(devices.present_hwnd(0x100, 0), 0x44);
    assert_eq!(devices.present, Some(1));
}

#[test]
fn d3d8_null_or_disconnected_skips_without_wait() {
    assert_eq!(blit_plan(true, true, true), BlitPlan::SkipNoWait);
    assert_eq!(blit_plan(false, false, true), BlitPlan::SkipNoWait);
    assert_eq!(blit_plan(false, true, true), BlitPlan::DrawKnownSwapchain);
    assert_eq!(blit_plan(false, true, false), BlitPlan::InitNoGpu);
}

#[test]
fn hook_without_ddraw_is_ok_and_requires_no_detours() {
    let ddraw = Ddraw::new();
    let mut hooks: Option<usize> = None;
    assert_eq!(
        attach_when_loaded(None::<usize>, &mut hooks, |module| module),
        AttachWhenLoaded::Skipped
    );
    assert!(hooks.is_none(), "miss must not latch empty (late LoadLibrary re-calls hook)");
    assert_eq!((ddraw.create_surface, ddraw.set_coop, ddraw.flip), (None, None, None));
}

#[test]
fn create_ex_wraps_only_dd7() {
    let mut name = [0u8; 16];
    name[..8].copy_from_slice(&IID_IDIRECTDRAW7.0.to_le_bytes());
    name[8..].copy_from_slice(&IID_IDIRECTDRAW7.1.to_le_bytes());
    assert!(is_dd7(Some(&name)));
    let other = [0u8; 16];
    assert!(!is_dd7(Some(&other)));
    assert!(!is_dd7(None));
    assert_eq!(IID_IDIRECTDRAW7.0, 0x11D23B9C15E65EC0);
    assert_eq!(IID_IDIRECTDRAW7.1, 0x5BEA979760002FB9);
}

#[test]
fn first_surface_hook_stays() {
    let mut ddraw = Ddraw::new();
    ddraw.wrap_ddraw(true, || Some(1), || Some(2));
    ddraw.wrap_ddraw(true, || Some(3), || Some(4));
    assert_eq!((ddraw.create_surface, ddraw.set_coop), (Some(1), Some(2)));
    ddraw.wrap_surface(-1, true, || Some(5));
    assert_eq!(ddraw.flip, None);
    ddraw.wrap_surface(0, true, || Some(5));
    assert_eq!(ddraw.flip, Some(5));
    ddraw.set_coop(0x66);
    assert_eq!(ddraw.coop_hwnd, 0x66);
}

#[test]
fn cached_rtv_store_get_clear_fake_key() {
    let mut slot = None;
    assert_eq!(cached_rtv_get_or_insert(&mut slot, || Some(0xAAu32)), Some(&0xAA));
    let mut created = false;
    assert_eq!(
        cached_rtv_get_or_insert(&mut slot, || {
            created = true;
            Some(0xBB)
        }),
        Some(&0xAA)
    );
    assert!(!created);
    cached_rtv_invalidate(&mut slot);
    assert!(slot.is_none());
    assert_eq!(cached_rtv_get_or_insert(&mut slot, || Some(0xCC)), Some(&0xCC));
}

#[test]
fn steam_overlay_disable_dx12_starts_with_one() {
    assert!(steam_overlay_disable_dx12(Some("1")));
    assert!(steam_overlay_disable_dx12(Some("1foo")));
    assert!(!steam_overlay_disable_dx12(Some("0")));
    assert!(!steam_overlay_disable_dx12(Some("")));
    assert!(!steam_overlay_disable_dx12(Some("true")));
    assert!(!steam_overlay_disable_dx12(None));
}

#[test]
fn pick_dx12_overlay_queue_mapped_hit_uses_slot_not_wrap() {
    assert_eq!(pick_dx12_overlay_queue(Some(&[0x10, 0x20]), 1, Some(0x99)), Some(0x20));
}

#[test]
fn pick_dx12_overlay_queue_wrap_used_when_map_none() {
    assert_eq!(pick_dx12_overlay_queue(None, 0, Some(0xAA)), Some(0xAA));
}

#[test]
fn pick_dx12_overlay_queue_mapped_beats_wrap() {
    assert_eq!(pick_dx12_overlay_queue(Some(&[0x10, 0x20]), 0, Some(0xAA)), Some(0x10));
}

#[test]
fn pick_dx12_overlay_queue_mapped_zero_slot_uses_wrap_not_last_direct() {
    assert_eq!(pick_dx12_overlay_queue(Some(&[0x10, 0]), 1, Some(0xAA)), Some(0xAA));
}

#[test]
fn pick_dx12_overlay_queue_no_wrap_no_map_is_none() {
    assert_eq!(pick_dx12_overlay_queue(None, 0, None), None);
}

#[test]
fn pick_dx12_overlay_queue_mapped_oob_uses_wrap() {
    assert_eq!(pick_dx12_overlay_queue(Some(&[0x10, 0x20]), 5, Some(0xAA)), Some(0xAA));
}

#[test]
fn pick_dx12_overlay_queue_empty_map_uses_wrap() {
    assert_eq!(pick_dx12_overlay_queue(Some(&[]), 0, Some(0xAA)), Some(0xAA));
}

#[test]
fn store_wrap_queue_roundtrip_with_fake_key() {
    let mut queues = Queues::new();
    let key = 0xD12_3101;
    queues.store_wrap_queue(key, 0xAA);
    assert_eq!(queues.get_wrap_queue(key), Some(0xAA));
    queues.clear_wrap_queue(key);
}

#[test]
fn get_wrap_queue_missing_key_is_none() {
    assert_eq!(Queues::new().get_wrap_queue(0xD12_3102), None);
}

#[test]
fn clear_wrap_queue_removes_entry() {
    let mut queues = Queues::new();
    let key = 0xD12_3103;
    queues.store_wrap_queue(key, 0xAA);
    queues.clear_wrap_queue(key);
    assert_eq!(queues.get_wrap_queue(key), None);
}

#[test]
fn clear_present_queues_does_not_clear_wrap() {
    let mut queues = Queues::new();
    let key = 0xD12_3104;
    queues.store_wrap_queue(key, 0xAA);
    queues.store_present_queues(key, &[0x10]);
    queues.clear_present_queues(key);
    assert_eq!(queues.get_wrap_queue(key), Some(0xAA));
    queues.clear_wrap_queue(key);
}

#[test]
fn record_resize_buffers1_null_keeps_wrap() {
    let mut queues = Queues::new();
    let key = 0xD12_3105;
    queues.store_wrap_queue(key, 0xAA);
    queues.store_present_queues(key, &[0x10, 0x20]);
    queues.record_resize_buffers1_present_queues(key, 2, None);
    assert_eq!(queues.get_present_queues(key), None);
    assert_eq!(queues.get_wrap_queue(key), Some(0xAA));
    queues.clear_wrap_queue(key);
}

#[test]
fn store_present_queues_roundtrip_with_fake_key() {
    let mut queues = Queues::new();
    let key = 0xD12_2101;
    queues.store_present_queues(key, &[0x10, 0x20]);
    assert_eq!(queues.get_present_queues(key).as_deref(), Some(&[0x10, 0x20][..]));
    queues.clear_present_queues(key);
}

#[test]
fn get_present_queues_missing_key_is_none() {
    assert_eq!(Queues::new().get_present_queues(0xD12_2102), None);
}

#[test]
fn store_present_queues_replaces_previous() {
    let mut queues = Queues::new();
    let key = 0xD12_2103;
    queues.store_present_queues(key, &[0x10]);
    queues.store_present_queues(key, &[0x30, 0]);
    assert_eq!(queues.get_present_queues(key).as_deref(), Some(&[0x30, 0][..]));
    queues.clear_present_queues(key);
}

#[test]
fn clear_present_queues_removes_entry() {
    let mut queues = Queues::new();
    let key = 0xD12_2104;
    queues.store_present_queues(key, &[0x10]);
    queues.clear_present_queues(key);
    assert_eq!(queues.get_present_queues(key), None);
}

#[test]
fn record_resize_buffers1_copies_non_null_queues() {
    let mut queues = Queues::new();
    let key = 0xD12_2105;
    queues.record_resize_buffers1_present_queues(key, 2, Some(&[0x10, 0x20]));
    assert_eq!(queues.get_present_queues(key).as_deref(), Some(&[0x10, 0x20][..]));
    queues.clear_present_queues(key);
}

#[test]
fn record_resize_buffers1_null_does_not_abort_and_clears() {
    let mut queues = Queues::new();
    let key = 0xD12_2106;
    queues.store_present_queues(key, &[0x10, 0x20]);
    queues.record_resize_buffers1_present_queues(key, 2, None);
    assert_eq!(queues.get_present_queues(key), None);
}

#[test]
fn record_resize_buffers1_zero_count_keeps_previous() {
    let mut queues = Queues::new();
    let key = 0xD12_2107;
    queues.record_resize_buffers1_present_queues(key, 2, Some(&[0x10, 0x20]));
    queues.record_resize_buffers1_present_queues(key, 0, Some(&[0x10, 0x20]));
    assert_eq!(queues.get_present_queues(key).as_deref(), Some(&[0x10, 0x20][..]));
    queues.clear_present_queues(key);
}

#[test]
fn named_queue_counts_before_the_wrapped_one() {
    let mut queues = Queues::new();
    queues.attach_from_swapchain(true, true, 5, Some(0xBB));
    assert_eq!(queues.overlay_queue(5, 0), None);
    queues.attach_from_swapchain(false, true, 5, Some(0xAA));
    assert_eq!(queues.overlay_queue(5, 0), Some(0xAA));
    queues.store_present_queues(5, &[0x10, 0]);
    assert_eq!(queues.overlay_queue(5, 0), Some(0x10));
    assert_eq!(queues.overlay_queue(5, 1), Some(0xAA));
}

#[test]
fn dx9_create_then_wrap_always_invokes_original() {
    let mut original_calls = 0;
    let mut wrap_calls = 0;
    let hr = create_then_wrap(
        || {
            original_calls += 1;
            (-1, None)
        },
        |_| wrap_calls += 1,
    );
    assert_eq!(original_calls, 1);
    assert_eq!(wrap_calls, 0);
    assert!(hr < 0);
}

#[test]
fn create_then_wrap_success_null_device_invokes_original_without_device() {
    let mut original_calls = 0;
    let mut wrap_calls = 0;
    let hr = create_then_wrap(
        || {
            original_calls += 1;
            (0, Some(0))
        },
        |_| wrap_calls += 1,
    );
    assert_eq!(original_calls, 1);
    assert_eq!(wrap_calls, 0);
    assert!(hr >= 0);
}

#[test]
fn created_device_is_wrapped() {
    let mut wrapped = None;
    assert_eq!(create_then_wrap(|| (0, Some(0x77)), |device| wrapped = Some(device)), 0);
    assert_eq!(wrapped, Some(0x77));
}

#[test]
fn dx9_hooks_are_attached_once() {
    let mut made = Hook::new();
    made.hook(true, false, &|site| if site == Site::Create9 { Some(1) } else { Some(2) });
    assert_eq!((made.create9, made.create9ex), (Some(1), None));
    made.wrap_d3d9(false, &|_| Some(3));
    made.wrap_d3d9(true, &|_| Some(4));
    assert_eq!((made.create_device, made.create_device_ex), (Some(3), Some(4)));
    made.wrap_device(false, false, &|_| Some(5));
    assert_eq!((made.present, made.reset), (Some(5), Some(5)));
    assert_eq!((made.present_ex, made.reset_ex), (None, None));
}

#[test]
fn dx9_renderer_leaves_when_only_it_holds_the_device() {
    let mut renderers = WordTable::new();
    renderers.insert(1, 10);
    assert_eq!(after_release(&mut renderers, 1, 4), None);
    assert_eq!(after_release(&mut renderers, 1, 1), None);
    assert_eq!(after_release(&mut renderers, 1, 3), Some(10));
    assert_eq!(after_release(&mut renderers, 1, 2), None);
    assert_eq!(cleanup_renderer(&mut renderers, 1), None);
    assert_eq!(present_window(5, || Some(6)), 5);
    assert_eq!(present_window(0, || Some(6)), 6);
    assert_eq!(present_window(0, || None), 0);
    assert!(draws_in(true, false, 7));
    assert!(!draws_in(false, false, 7));
    assert!(!draws_in(true, false, 0));
}

/// Enter the backend only where the device was found; its adapter does not
/// matter.
fn dx11_enter_backend(qi: Result<(), ()>, _adapter: Option<()>) -> bool {
    dx11_device_qi(qi).is_some()
}

#[test]
fn dx11_qi_cast_failure_skips_draw() {
    assert!(!dx11_enter_backend(Err(()), None));
    assert!(!dx11_enter_backend(Err(()), Some(())));
}

#[test]
fn dx11_qi_ok_enters_backend_even_when_adapter_none() {
    assert!(dx11_enter_backend(Ok(()), None));
    assert!(dx11_enter_backend(Ok(()), Some(())));
}

#[test]
fn should_blit_when_scanout_off() {
    assert!(should_blit());
}

#[test]
fn present_test_skips_overlay() {
    assert!(!should_overlay(DXGI_PRESENT_TEST));
    assert!(should_overlay(0));
}

#[test]
fn present_draw_order_is_d3d10_then_d3d11_then_d3d12() {
    assert_eq!(present_draw_apis(), ["d3d10", "d3d11", "d3d12"]);
    assert_eq!(present_apis(), [Api::Dx10, Api::Dx11, Api::Dx12]);
}

#[test]
fn dx12_is_drawn_with_a_direct_queue_only() {
    assert!(dx12_ready(false, Some(5), true));
    assert!(!dx12_ready(true, Some(5), true));
    assert!(!dx12_ready(false, None, true));
    assert!(!dx12_ready(false, Some(0), true));
    assert!(!dx12_ready(false, Some(5), false));
}

#[test]
fn present_hung_or_removed_matches_steam_predicate() {
    const REMOVED: i32 = 0x887A_0005u32 as i32;
    const HUNG: i32 = 0x887A_0006u32 as i32;
    const NEXT: i32 = 0x887A_0007u32 as i32;
    assert!(present_hung_or_removed(REMOVED));
    assert!(present_hung_or_removed(HUNG));
    assert!(!present_hung_or_removed(NEXT));
    assert!(!present_hung_or_removed(0));
    assert!(!present_hung_or_removed(1));
}

#[test]
fn torn_down_chain_leaves_nothing() {
    let mut chains = Chains::new();
    assert!(chains.remember_hwnd_swapchain(Some(7), 0x50));
    assert!(!chains.remember_hwnd_swapchain(Some(7), 0x50));
    assert!(chains.remember_hwnd_swapchain(Some(7), 0x60));
    assert_eq!(chains.swapchain_for_hwnd(7), Some(0x60));
    chains.attach_if_new(0x10, |target| Some(target + 1));
    chains.attach_if_new(0x10, |_| Some(0x99));
    assert_eq!(chains.original(0x10), 0x11);
    chains.dx11.insert(0x60, 0x700);
    chains.queues.store_wrap_queue(0x60, 0xAA);
    assert_eq!(chains.teardown_swapchain(Api::Dx11, 0x60), Some(0x700));
    assert_eq!(chains.teardown_swapchain(Api::Dx11, 0x60), None);
    chains.on_destroyed(7, 0x60);
    assert_eq!(chains.swapchain_for_hwnd(7), None);
}

#[test]
fn lost_device_tears_its_renderers_down() {
    let mut chains = Chains::new();
    chains.dx10.insert(0x60, 1);
    chains.dx12.insert(0x60, 3);
    let (_, draw) = chains.before_present(Some(7), 0x60, 0, true);
    assert!(draw);
    let (_, probed) = chains.before_present(Some(7), 0x60, DXGI_PRESENT_TEST, true);
    assert!(!probed);
    chains.after_present(0x60, 0);
    assert_eq!(chains.dx10.get(0x60), Some(1));
    chains.after_present(0x60, 0x887A_0005u32 as i32);
    assert_eq!(chains.dx10.get(0x60), None);
    assert_eq!(chains.dx12.get(0x60), None);
}

fn should_wrap_created(hr_ok: bool, out_non_null: bool) -> bool {
    let mut wrapped = false;
    wrap_created(
        if hr_ok { 0 } else { -1 },
        if out_non_null { Some(5) } else { None },
        |_| wrapped = true,
    );
    wrapped
}

#[test]
fn scanout_off_factory_wrap_is_not_dcomp() {
    assert!(!INDEPENDENT_SCANOUT);
    assert!(!independent_active());
}

#[test]
fn failed_or_null_create_does_not_wrap() {
    assert!(!should_wrap_created(false, false));
    assert!(!should_wrap_created(false, true));
    assert!(!should_wrap_created(true, false));
    assert!(should_wrap_created(true, true));
    assert!(wraps_factory(0, Some(5)));
    assert!(!wraps_factory(-1, Some(5)));
}

#[test]
fn factory_create_then_wrap_always_invokes_original() {
    let mut original_calls = 0;
    let hr = create_then_wrap(
        || {
            original_calls += 1;
            (-1, None)
        },
        |_| {},
    );
    assert_eq!(original_calls, 1);
    assert!(hr < 0);
}

#[test]
fn create_then_wrap_success_null_chain_invokes_original_without_device() {
    let mut original_calls = 0;
    let mut wrap_calls = 0;
    let hr = create_then_wrap(
        || {
            original_calls += 1;
            (0, Some(0))
        },
        |_| wrap_calls += 1,
    );
    assert_eq!(original_calls, 1);
    assert_eq!(wrap_calls, 0);
    assert!(hr >= 0);
}

#[test]
fn factory_hooks_are_attached_once() {
    let mut made = FactoryHooks::new();
    made.hook(true, true, false, &|_| Some(1));
    assert_eq!(
        (made.create_factory, made.create_factory1, made.create_factory2),
        (Some(1), Some(1), None)
    );
    made.wrap_factory(false, &|_| Some(2));
    assert_eq!((made.create_swap_chain, made.for_hwnd), (Some(2), None));
    made.wrap_factory(true, &|_| Some(3));
    assert_eq!((made.create_swap_chain, made.for_hwnd), (Some(2), Some(3)));
}

#[test]
fn adopt_none_is_draw() {
    let mut active = None;
    assert_eq!(adopt_renderer(&mut active, Renderer::Dx12, &[]), DrawGate::Draw);
    assert_eq!(active, Some(Renderer::Dx12));
}

#[test]
fn adopt_already_target_is_draw() {
    let mut active = Some(Renderer::Dx12);
    assert_eq!(adopt_renderer(&mut active, Renderer::Dx12, &[]), DrawGate::Draw);
}

#[test]
fn adopt_other_api_is_ignored() {
    let mut active = Some(Renderer::Dx11);
    assert_eq!(adopt_renderer(&mut active, Renderer::Dx12, &[]), DrawGate::Ignored);
    assert_eq!(active, Some(Renderer::Dx11));
}

#[test]
fn adopt_migrate_from_stays_adopted() {
    let mut active = Some(Renderer::Opengl);
    assert_eq!(
        adopt_renderer(&mut active, Renderer::Dx12, &[Renderer::Opengl]),
        DrawGate::Adopted
    );
    assert_eq!(active, Some(Renderer::Dx12));
}

#[test]
fn other_renderer_draws_nothing() {
    let mut render = RenderData::new((640, 480));
    assert!(draw_overlay(&mut render, Api::Dx11).is_some());
    assert_eq!(render.renderer, Some(Renderer::Dx11));
    assert!(draw_overlay(&mut render, Api::Dx10).is_none());
    assert_eq!(hook(), [DxPart::Dx12, DxPart::Dxgi, DxPart::Dx9]);
}

#[test]
fn with_map_entry_initializes_once_and_calls_on_created() {
    let mut map = WordTable::new();
    let mut created = 0;

    let v1 = with_map_entry(
        &mut map,
        1usize,
        || Ok::<usize, ()>(10),
        Some(|| created += 1),
        |v| (v + 1, Ok(v + 1)),
    )
    .unwrap();
    assert_eq!(v1, 11);
    assert_eq!(created, 1);

    let v2 = with_map_entry(
        &mut map,
        1usize,
        || Ok::<usize, ()>(0),
        Some(|| created += 1),
        |v| (v, Ok::<usize, ()>(v)),
    )
    .unwrap();
    assert_eq!(v2, 11);
    assert_eq!(created, 1);
}

#[test]
fn failed_renderer_is_not_kept() {
    let mut map = WordTable::new();
    let got = with_map_entry(
        &mut map,
        1,
        || Err::<usize, i32>(5),
        None::<fn()>,
        |v| (v, Ok::<usize, i32>(v)),
    );
    assert_eq!(got, Err(5));
    assert_eq!(map.get(1), None);
}

#[test]
fn hook_without_fg_modules_is_ok_and_requires_no_detours() {
    let modules = Modules {
        sl: None,
        sl_pd: None,
        dlss: None,
        dlss_pd: None,
        ffx_vk: None,
        ffx_dx12: None,
    };
    let mut hooks = None;
    glint_overlay::hook::fg::hook(&mut hooks, &modules, |_, _| Some(1));
    assert!(hooks.is_none(), "miss must not latch empty (late LoadLibrary re-calls hook)");
}

#[test]
fn fg_hooks_are_original_only_no_extra_present() {
    assert_eq!(fg_plan(), FgPlan::OriginalOnly);
}

#[test]
fn sldlssg_uses_plugin_function_not_direct_export() {
    assert!(resolve_sldlssg(0, || None).is_none());
    assert_eq!(resolve_sldlssg(0x40, || Some(0x50)), Some(0x50));
}

#[test]
fn hook_without_mantle_is_ok_and_requires_no_detours() {
    assert!(mantle_module(None, || None).is_none());
    let mut hooks: Option<usize> = None;
    assert_eq!(
        attach_when_loaded(mantle_module(None, || None), &mut hooks, |module| module),
        AttachWhenLoaded::Skipped
    );
    assert!(hooks.is_none(), "miss must not latch empty (late LoadLibrary re-calls hook)");
    assert_eq!(mantle_module(Some(3), || Some(4)), Some(3));
    assert_eq!(mantle_module(None, || Some(4)), Some(4));
}

#[test]
fn present_info_hwnd_is_first_field() {
    assert_eq!(hwnd_from_present_info(Some(0x1234)), 0x1234);
    assert_eq!(hwnd_from_present_info(None), 0);
}

#[test]
fn mantle_null_or_disconnected_skips_without_wait() {
    assert_eq!(blit_plan(true, true, true), BlitPlan::SkipNoWait);
    assert_eq!(blit_plan(false, false, true), BlitPlan::SkipNoWait);
    assert_eq!(blit_plan(true, false, false), BlitPlan::SkipNoWait);
}

#[test]
fn blit_is_not_empty_closure() {
    assert_eq!(blit_plan(false, true, true), BlitPlan::DrawKnownSwapchain);
    assert_eq!(blit_plan(false, true, false), BlitPlan::InitNoGpu);
    assert_ne!(BlitPlan::DrawKnownSwapchain, BlitPlan::InitNoGpu);
    assert_ne!(BlitPlan::DrawKnownSwapchain, BlitPlan::SkipNoWait);
}

#[test]
fn unknown_window_is_added_without_a_draw() {
    let mut backends = Backends::new();
    let mut sink = OverlayEventSink::new();
    let client = sink.add();
    assert!(!begin_blit(0, true, None, &mut backends));
    let told = finish_blit(
        7,
        false,
        Some((800, 600)),
        || Ok::<_, ()>((luid(), (800, 600))),
        &mut backends,
        &mut sink,
    );
    assert_eq!(told.len(), 1);
    assert_eq!(told[0].client, client);
    assert_eq!(
        told[0].event,
        OverlayEvent::Window {
            id: 7,
            event: WindowEvent::Added { width: 800, height: 600, gpu_id: luid() },
        }
    );
    assert_eq!(backends.iter(), vec![7]);
}

#[test]
fn removed_window_is_told() {
    let mut backends = Backends::new();
    let mut sink = OverlayEventSink::new();
    sink.add();
    backends.put(7, WindowBackend::new(7, luid(), (8, 8)));
    let told = backends.remove_backend(&mut sink, 7);
    assert_eq!(told.len(), 1);
    assert!(backends.iter().is_empty());
}

#[test]
fn steps_stop_at_the_first_failure() {
    let plan: Vec<LayerStep> = (0..4)
        .map(|layer| LayerStep { layer, update: None, draw: Some(((0, 0), (8, 8))) })
        .collect();
    let seen = std::cell::RefCell::new(Vec::new());
    let all = perform_steps(&plan, &|step: LayerStep| {
        seen.borrow_mut().push(step.layer);
        Ok::<(), i32>(())
    });
    assert_eq!(all, Ok(()));
    assert_eq!(*seen.borrow(), vec![0, 1, 2, 3]);

    seen.borrow_mut().clear();
    let some = perform_steps(&plan, &|step: LayerStep| {
        seen.borrow_mut().push(step.layer);
        if step.layer == 1 {
            Err(-5)
        } else {
            Ok(())
        }
    });
    assert_eq!(some, Err(-5));
    assert_eq!(*seen.borrow(), vec![0, 1]);
    assert_eq!(perform_steps(&Vec::new(), &|_: LayerStep| Err(1)), Ok(()));
}

#[test]
fn a_frame_is_handed_over_though_drawing_failed() {
    let handed = std::cell::Cell::new(0);
    let hand = |answer: Result<(), i32>| {
        handed.set(handed.get() + 1);
        answer
    };
    assert_eq!(finish_frame(Ok(()), || hand(Ok(()))), Ok(()));
    assert_eq!(finish_frame(Ok(()), || hand(Err(2))), Err(2));
    assert_eq!(finish_frame(Err(1), || hand(Ok(()))), Err(1));
    assert_eq!(finish_frame(Err(1), || hand(Err(2))), Err(1));
    assert_eq!(handed.get(), 4);
}

#[test]
fn what_is_not_due_is_not_run() {
    let mut cell = Some(1usize);
    assert_eq!(
        attach_when_loaded(Some(5usize), &mut cell, |_| unreachable!()),
        AttachWhenLoaded::AlreadyAttached
    );
    let mut missing: Option<usize> = None;
    assert_eq!(
        attach_when_loaded(None::<usize>, &mut missing, |_| unreachable!()),
        AttachWhenLoaded::Skipped
    );
    let mut map = WordTable::new();
    map.insert(1, 10);
    let got = with_map_entry(
        &mut map,
        1,
        || -> Result<usize, i32> { unreachable!() },
        Some(|| unreachable!()),
        |value| (value, Ok::<usize, i32>(value)),
    );
    assert_eq!(got, Ok(10));
    let failed = with_map_entry(
        &mut map,
        2,
        || Err::<usize, i32>(5),
        Some(|| unreachable!()),
        |_| -> (usize, Result<usize, i32>) { unreachable!() },
    );
    assert_eq!(failed, Err(5));
    let mut chains = Chains::new();
    chains.attach_if_new(0x10, |target| Some(target + 1));
    chains.attach_if_new(0x10, |_| unreachable!());
    let mut devices = Devices::new();
    devices.wrap_device(0, 0x22, true, || unreachable!());
    devices.wrap_device(0x100, 0x22, false, || unreachable!());
    assert_eq!(devices.present_hwnd(0x100, 0), 0x22);
}
