//! Surfaces, layers and the renderers that draw them.

use glint_overlay::backend::render::{OverlaySurface, RenderData, Renderer};
use glint_overlay::geometry::{LayerInputRect, PercentLength};
use glint_overlay::renderer::dx11::{
    open_shared_texture, Dx11Draw, Dx11Renderer, Dx11Tex, TexDesc as Dx11Desc,
};
use glint_overlay::renderer::dx12::sync::{
    gpu_busy, pending_fence_action, PendingAction, RendererFence,
};
use glint_overlay::renderer::dx12::{
    dx12_mailbox_action, open_shared, resource_barrier_needed, with_dx12_lock, Command, Dx12Lock,
    Dx12MailboxAction, Dx12Renderer, TexDesc as Dx12Desc, STATE_COPY_DEST, STATE_COPY_SOURCE,
    STATE_PIXEL_SHADER_RESOURCE, STATE_PRESENT, STATE_RENDER_TARGET,
};
use glint_overlay::renderer::hdr::{overlay_blit_color_space, ColorSpaces, OverlayBlitColorSpace};
use glint_overlay::texture::{SharedHandle, UpdateSharedHandle};
use glint_overlay::util::HeldMutexes;
use glint_overlay::vulkan::{
    acquire_next_image, acquire_ok, begin_present, clear_acquired_if_presented, clear_if_presented,
    draw_overlay, draws_in, export_queue, finish_present, note_acquired, samples, steam_overlay_present,
    texture_update, AcquiredMailbox, ExportBlit, SwapchainImage, VK_ERROR_UNKNOWN, VK_SUBOPTIMAL,
    VK_SUCCESS,
};

const WAIT_TIMEOUT: i32 = 0x102;

fn some(raw: u32) -> Option<SharedHandle> {
    SharedHandle::new(raw)
}

fn open(handle: SharedHandle) -> Result<OverlaySurface, i32> {
    Ok(OverlaySurface { handle, size: (100, 50) })
}

#[test]
fn layers_are_drawn_from_the_lowest_up() {
    let mut render = RenderData::new((800, 600));
    assert_eq!(render.update_layer(5, some(9), open), Ok(()));
    assert_eq!(render.update_layer(2, some(8), open), Ok(()));
    assert_eq!(render.update_surface(some(7), open), Ok(()));
    let drawn: Vec<u32> = render.draw_layers().iter().map(|layer| layer.0).collect();
    assert_eq!(drawn, vec![0, 2, 5]);
    let again = render.draw_layers();
    assert!(again.iter().all(|layer| layer.1.is_none()));
}

#[test]
fn cleared_layer_is_told_once() {
    let mut render = RenderData::new((800, 600));
    render.update_layer(2, some(8), open).unwrap();
    render.draw_layers();
    render.update_layer(2, None, open).unwrap();
    let cleared = render.draw_layers();
    assert_eq!(cleared.len(), 1);
    assert_eq!(cleared[0].1, Some(UpdateSharedHandle { handle: None }));
    assert!(render.draw_layers().is_empty());
}

#[test]
fn surface_that_does_not_open_is_told() {
    let mut render = RenderData::new((800, 600));
    assert_eq!(render.update_layer(2, some(8), |_| Err(3)), Err(3));
}

#[test]
fn layer_rects_follow_positions_and_input_rects() {
    let mut render = RenderData::new((800, 600));
    render.update_layer(2, some(8), open).unwrap();
    let pixels = |length: PercentLength, _span: u32| match length {
        PercentLength::Length(n) => n as i32,
        PercentLength::Percent(_) => 0,
    };
    render.set_layer_position_pct(2, PercentLength::Length(30), PercentLength::Length(40));
    let rects = render.layer_rects(&pixels);
    assert_eq!(rects.len(), 1);
    assert_eq!((rects[0].0, rects[0].3, rects[0].4), (2, 100, 50));
    render.set_layer_input_rect(
        2,
        Some(LayerInputRect {
            x: PercentLength::Length(1),
            y: PercentLength::Length(2),
            width: 10,
            height: 20,
        }),
    );
    assert_eq!(render.layer_rects(&pixels), vec![(2, 1, 2, 10, 20)]);
}

#[test]
fn busy_with_cache_uses_last_good_not_shared() {
    assert_eq!(dx12_mailbox_action(false, true), Dx12MailboxAction::DrawLastGood);
}

#[test]
fn busy_without_cache_skips_quad() {
    assert_eq!(dx12_mailbox_action(false, false), Dx12MailboxAction::Skip);
}

#[test]
fn lock_samples_shared_and_snapshots() {
    assert_eq!(dx12_mailbox_action(true, false), Dx12MailboxAction::DrawSharedAndSnapshot);
    assert_eq!(dx12_mailbox_action(true, true), Dx12MailboxAction::DrawSharedAndSnapshot);
}

#[test]
fn resource_barrier_needed_skips_when_stored_matches() {
    assert!(!resource_barrier_needed(4, 4));
    assert!(!resource_barrier_needed(1024, 1024));
    assert!(!resource_barrier_needed(0, 0));
    assert!(!resource_barrier_needed(1, 1));
}

#[test]
fn resource_barrier_needed_emits_when_differs() {
    assert!(resource_barrier_needed(0, 4));
    assert!(resource_barrier_needed(4, 0));
    assert!(resource_barrier_needed(1, 1024));
}

#[test]
fn frame_of_one_layer_is_recorded() {
    let mut renderer = Dx12Renderer::new();
    let desc = Dx12Desc { width: 100, height: 50, format: 87 };
    renderer.update_texture(1, UpdateSharedHandle { handle: some(7) }, 0, |_| Ok::<(), ()>(()));
    let tex = renderer
        .begin_draw(
            1,
            (800, 600),
            0,
            |_| Ok::<(), ()>(()),
            |_| Ok(open_shared(0x70, desc, Some(Some(0x51)))),
        )
        .unwrap()
        .unwrap();
    assert_eq!(tex.lock, Dx12Lock::Mutex(0x51));
    let (source, slot) = renderer.source(1, tex, true).unwrap();
    assert_eq!((source, slot), (0x70, 1));
    let commands = renderer.record(1, true, 2, 0xB0, source, slot, desc, |_| Some(0x90));
    assert_eq!(
        commands,
        vec![
            Command::Begin { index: 2 },
            Command::Barrier { resource: 0xB0, from: STATE_PRESENT, to: STATE_RENDER_TARGET },
            Command::Target,
            Command::Copy { source: 0x70, target: 0x90 },
            Command::Barrier {
                resource: 0x90,
                from: STATE_COPY_DEST,
                to: STATE_PIXEL_SHADER_RESOURCE,
            },
            Command::Barrier {
                resource: 0x70,
                from: STATE_COPY_SOURCE,
                to: STATE_PIXEL_SHADER_RESOURCE,
            },
            Command::Draw { slot: 1, source: 0x70 },
        ]
    );
    assert_eq!(
        renderer.finish(),
        Some(vec![
            Command::Barrier { resource: 0xB0, from: STATE_RENDER_TARGET, to: STATE_PRESENT },
            Command::Close { index: 2 },
        ])
    );
    assert_eq!(renderer.finish(), None);
    assert_eq!(renderer.source(1, tex, false), Some((0x90, 1)));
}

#[test]
fn empty_screen_draws_nothing() {
    let mut renderer = Dx12Renderer::new();
    assert_eq!(
        renderer.begin_draw(1, (0, 600), 0, |_| Err(1), |_| Err(2)),
        Ok(None)
    );
    let mut dx11 = Dx11Renderer::new();
    let mut holds = HeldMutexes::new();
    assert_eq!(
        dx11.draw(&mut holds, 1, (800, 0), |_| Err(2), |_, _| 0),
        Ok(Dx11Draw::Skip)
    );
}

#[test]
fn lock_without_a_mutex_is_held() {
    let mut holds = HeldMutexes::new();
    assert_eq!(with_dx12_lock(&mut holds, Dx12Lock::NoMutex, |_, _| 0), Some(true));
    assert_eq!(with_dx12_lock(&mut holds, Dx12Lock::Mutex(5), |_, _| WAIT_TIMEOUT), Some(false));
    assert_eq!(with_dx12_lock(&mut holds, Dx12Lock::Mutex(5), |_, _| -1), None);
}

#[test]
fn unlocked_texture_is_drawn_from_its_copy() {
    let desc = Dx11Desc { width: 100, height: 50, format: 87 };
    let tex = Dx11Tex { texture: 0x70, mutex: Some(0x51), view: 0x71 };
    assert_eq!(
        open_shared_texture(Some((0x70, Some(0x51), desc)), || Ok::<usize, ()>(0x71)),
        Ok(Some(tex))
    );
    let mut renderer = Dx11Renderer::new();
    let mut holds = HeldMutexes::new();
    renderer.update_texture(1, UpdateSharedHandle { handle: some(7) });
    let open = |_: SharedHandle| Ok::<Option<Dx11Tex>, i32>(Some(tex));
    assert_eq!(
        renderer.draw(&mut holds, 1, (800, 600), open, |_, _| WAIT_TIMEOUT),
        Ok(Dx11Draw::Skip)
    );
    assert_eq!(
        renderer.draw(&mut holds, 1, (800, 600), open, |_, _| -1),
        Ok(Dx11Draw::Skip)
    );
    match renderer.draw(&mut holds, 1, (800, 600), open, |_, _| 0) {
        Ok(Dx11Draw::Live { view, .. }) => assert_eq!(view, 0x71),
        other => panic!("{other:?}"),
    }
    assert_eq!(renderer.snapshot_last_good(1, desc, |_| Some((0x90, 0x91))), Some(0x90));
    holds.release_keyed_mutex_holds();
    assert_eq!(
        renderer.draw(&mut holds, 1, (800, 600), open, |_, _| WAIT_TIMEOUT),
        Ok(Dx11Draw::Cache { view: 0x91 })
    );
    renderer.update_texture(1, UpdateSharedHandle { handle: None });
    assert_eq!(
        renderer.draw(&mut holds, 1, (800, 600), open, |_, _| 0),
        Ok(Dx11Draw::Skip)
    );
}

#[test]
fn texture_that_does_not_open_is_told() {
    let mut renderer = Dx11Renderer::new();
    let mut holds = HeldMutexes::new();
    renderer.update_texture(1, UpdateSharedHandle { handle: some(7) });
    assert_eq!(
        renderer.draw(&mut holds, 1, (800, 600), |_| Err(5), |_, _| 0),
        Err(5)
    );
}

#[test]
fn previous_frame_complete_does_not_skip() {
    assert!(!gpu_busy(1, 1));
    assert!(!gpu_busy(2, 1));
}

#[test]
fn previous_frame_pending_is_busy() {
    assert!(gpu_busy(0, 1));
}

#[test]
fn pending_fence_waits_not_skips() {
    assert_eq!(pending_fence_action(false), PendingAction::Draw);
    assert_eq!(pending_fence_action(true), PendingAction::Wait);
}

#[test]
fn one_signal_after_all_layers_does_not_busy_later_layers() {
    let mut fence_val = 1u64;
    let completed = 1u64;
    assert!(!gpu_busy(completed, fence_val));
    assert!(!gpu_busy(completed, fence_val));
    fence_val += 1;
    assert!(gpu_busy(completed, fence_val));
}

#[test]
fn per_layer_signal_would_skip_remaining_layers() {
    let completed = 1u64;
    let after_layer0 = 2u64;
    assert!(gpu_busy(completed, after_layer0));
}

#[test]
fn drop_leaks_only_while_gpu_busy() {
    assert!(gpu_busy(0, 1));
    assert!(!gpu_busy(1, 1));
    let mut fence = RendererFence::new();
    assert_eq!(fence.register(|value| if value == 1 { Ok(()) } else { Err(value) }), Ok(()));
    assert!(!fence.closes_event(0, 9));
    assert!(fence.closes_event(1, 9));
    assert!(!fence.closes_event(1, 0));
}

#[test]
fn fence_waits_for_its_value() {
    let mut fence = RendererFence::new();
    fence.register(|_| Ok::<(), u64>(())).unwrap();
    assert!(fence.is_pending(0));
    assert_eq!(fence.wait_pending(0, |value| Err(value)), Err(1));
    assert_eq!(fence.wait_pending(1, |value| Err(value)), Ok(()));
}

#[test]
fn v22_1_is_scrgb() {
    assert_eq!(overlay_blit_color_space(1), OverlayBlitColorSpace::Scrgb);
}

#[test]
fn v22_12_is_pq() {
    assert_eq!(overlay_blit_color_space(12), OverlayBlitColorSpace::Pq);
}

#[test]
fn v22_other_is_sdr() {
    assert_eq!(overlay_blit_color_space(0), OverlayBlitColorSpace::Sdr);
    assert_eq!(overlay_blit_color_space(2), OverlayBlitColorSpace::Sdr);
    assert_eq!(overlay_blit_color_space(17), OverlayBlitColorSpace::Sdr);
}

#[test]
fn last_color_space_counts() {
    let mut spaces = ColorSpaces::new();
    assert_eq!(spaces.blit_color_space_for3(5), OverlayBlitColorSpace::Sdr);
    spaces.record_swapchain_color_space(5, 1);
    spaces.record_swapchain_color_space(5, 12);
    assert_eq!(spaces.blit_color_space_for3(5), OverlayBlitColorSpace::Pq);
    assert_eq!(spaces.blit_color_space_for3(6), OverlayBlitColorSpace::Sdr);
    spaces.forget_swapchain_color_space(5);
    assert_eq!(spaces.blit_color_space_for3(5), OverlayBlitColorSpace::Sdr);
}

#[test]
fn queue_present_missing_queue_does_not_panic() {
    assert_eq!(begin_present(false, true, true), Err(VK_ERROR_UNKNOWN));
    assert_eq!(begin_present(true, false, true), Err(VK_ERROR_UNKNOWN));
    assert_eq!(begin_present(true, true, true), Ok(()));
}

#[test]
fn steam_export_null_gate_skips_blit() {
    let mut acquired = None;
    note_acquired(&mut acquired, 1, 0x11, 2);
    assert_eq!(steam_overlay_present(&acquired, false), None);
}

#[test]
fn steam_export_non_null_skips_when_nothing_acquired() {
    assert_eq!(steam_overlay_present(&None, true), Some(ExportBlit::SkippedNoAcquire));
}

#[test]
fn steam_export_non_null_enters_blit_with_acquired_mailbox() {
    let mut acquired = None;
    note_acquired(&mut acquired, 1, 0x11, 2);
    assert_eq!(
        steam_overlay_present(&acquired, true),
        Some(ExportBlit::Entered { swapchain: 0x11, index: 2 })
    );
}

#[test]
fn present_success_clears_acquired_so_later_export_skips() {
    let mut acquired = None;
    note_acquired(&mut acquired, 1, 0x11, 2);
    clear_if_presented(&mut acquired, 0x11, 2);
    assert_eq!(
        steam_overlay_present(&acquired, true),
        Some(ExportBlit::SkippedNoAcquire)
    );
}

#[test]
fn acquire_hooks_missing_device_do_not_panic() {
    let mut acquired = None;
    let outcome = acquire_next_image(&mut acquired, 0, false, Some(0), Some(7), |place| (0, place));
    assert_eq!(outcome, (VK_ERROR_UNKNOWN, Some(7)));
    let second = acquire_next_image(&mut acquired, 0, false, None, Some(7), |place| (0, place));
    assert_eq!(second, (VK_ERROR_UNKNOWN, Some(7)));
    assert_eq!(acquired, None);
}

#[test]
fn acquired_image_is_noted() {
    let mut acquired = None;
    let outcome = acquire_next_image(&mut acquired, 1, true, Some(0x11), Some(0), |_| {
        (VK_SUBOPTIMAL, Some(2))
    });
    assert_eq!(outcome, (VK_SUBOPTIMAL, Some(2)));
    assert_eq!(acquired, Some(AcquiredMailbox { device: 1, swapchain: 0x11, index: 2 }));
    assert!(acquire_ok(VK_SUCCESS));
    assert!(!acquire_ok(VK_ERROR_UNKNOWN));
    let images = [SwapchainImage { swapchain: 0x11, index: 2 }];
    clear_acquired_if_presented(&mut acquired, Some(&images), VK_ERROR_UNKNOWN);
    assert!(acquired.is_some());
    clear_acquired_if_presented(&mut acquired, Some(&images), VK_SUCCESS);
    assert_eq!(acquired, None);
}

#[test]
fn present_releases_what_was_parked() {
    let mut acquired = None;
    let mut holds = HeldMutexes::new();
    holds.park_keyed_mutex(0x51);
    let mut semaphores = vec![1, 2];
    let done = finish_present(&mut acquired, &mut holds, &mut semaphores, None, |waited| {
        waited.len() as i32
    });
    assert_eq!(done.answer, 2);
    assert_eq!(done.released, vec![0x51]);
    assert!(semaphores.is_empty());
}

#[test]
fn first_queue_is_exported() {
    assert_eq!(export_queue(Some(&[5, 6]), |_| Some(3)), Some((5, 3)));
    assert_eq!(export_queue(Some(&[5]), |_| None), Some((5, 0)));
    assert_eq!(export_queue(Some(&[]), |_| Some(3)), None);
    assert_eq!(export_queue(None, |_| Some(3)), None);
}

#[test]
fn vulkan_draws_from_the_second_present_on() {
    let mut render = RenderData::new((800, 600));
    assert!(!draws_in(&mut render));
    assert_eq!(render.renderer, Some(Renderer::Vulkan));
    assert!(draws_in(&mut render));
    assert!(texture_update(&mut render).is_none());
    render.update_surface(some(7), open).unwrap();
    assert!(matches!(texture_update(&mut render), Some(Some(_))));
    assert!(texture_update(&mut render).is_none());
    assert!(samples(true));
    assert!(!samples(false));
}

#[test]
fn cleared_layers_leave_the_lists() {
    for layer in [0, 3] {
        let mut render = RenderData::new((800, 600));
        render.update_layer(layer, some(8), open).unwrap();
        render.update_layer(5, some(9), open).unwrap();
        render.set_layer_input_rect(
            layer,
            Some(LayerInputRect {
                x: PercentLength::Length(0),
                y: PercentLength::Length(0),
                width: 9,
                height: 9,
            }),
        );
        render.draw_layers();
        render.update_layer(layer, None, open).unwrap();
        let hit: Vec<u32> = render.layer_rects(&|_, _| 0).iter().map(|rect| rect.0).collect();
        assert_eq!(hit, vec![5]);
        let next = render.draw_layers();
        let cleared: Vec<_> = next.iter().filter(|entry| entry.0 == layer).collect();
        assert_eq!(
            cleared,
            vec![&(layer, Some(UpdateSharedHandle { handle: None }), (0, 0), (0, 0))]
        );
        assert!(next.windows(2).all(|pair| pair[0].0 < pair[1].0));
        for _ in 0..2 {
            let later: Vec<u32> = render.draw_layers().iter().map(|entry| entry.0).collect();
            assert_eq!(later, vec![5]);
        }
    }
}

#[test]
fn vulkan_draws_under_the_lock_after_the_update() {
    let mut render = RenderData::new((800, 600));
    render.position = (3, 4);
    render.update_surface(some(7), open).unwrap();
    let mut holds = HeldMutexes::new();
    let log = std::cell::RefCell::new(Vec::new());
    let run = |render: &mut RenderData, holds: &mut HeldMutexes, ready: bool, taken: bool, hr| {
        log.borrow_mut().clear();
        draw_overlay(
            render,
            holds,
            || {
                log.borrow_mut().push("ready");
                ready
            },
            |surface| {
                assert_eq!(surface.map(|surface| surface.handle), some(7));
                log.borrow_mut().push("update");
                taken
            },
            Some(0x51),
            |mutex, timeout| {
                assert_eq!((mutex, timeout), (0x51, 0));
                log.borrow_mut().push("lock");
                hr
            },
            |surface, position, screen| {
                assert_eq!((surface.size, position, screen), ((100, 50), (3, 4), (800, 600)));
                log.borrow_mut().push("draw");
                Some(0x99)
            },
        )
    };
    assert_eq!(run(&mut render, &mut holds, true, true, 0), None);
    assert_eq!(render.renderer, Some(Renderer::Vulkan));
    assert!(log.borrow().is_empty());
    assert_eq!(run(&mut render, &mut holds, false, true, 0), None);
    assert_eq!(*log.borrow(), vec!["ready"]);
    assert_eq!(run(&mut render, &mut holds, true, false, 0), None);
    assert_eq!(*log.borrow(), vec!["ready", "update"]);
    assert_eq!(run(&mut render, &mut holds, true, true, WAIT_TIMEOUT), None);
    assert_eq!(*log.borrow(), vec!["ready", "lock"]);
    assert_eq!(run(&mut render, &mut holds, true, true, -1), None);
    assert_eq!(run(&mut render, &mut holds, true, true, 0), Some(0x99));
    assert_eq!(*log.borrow(), vec!["ready", "lock", "draw"]);
    assert!(holds.keyed_mutex_already_held(0x51));
    assert_eq!(run(&mut render, &mut holds, true, true, -1), Some(0x99));
    render.renderer = Some(Renderer::Dx11);
    assert_eq!(run(&mut render, &mut holds, true, true, 0), None);
    assert!(log.borrow().is_empty());
}
