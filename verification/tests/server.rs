//! Requests of clients, and their sessions.

use glint_overlay::backend::render::OverlaySurface;
use glint_overlay::backend::window::input_ll::LowLevelInput;
use glint_overlay::backend::window::InputBlockData;
use glint_overlay::backend::{saved_clip, Backends, GuiTask, WindowBackend};
use glint_overlay::clients::SessionCounter;
use glint_overlay::event::{GpuLuid, OverlayEvent, WindowEvent};
use glint_overlay::event_sink::OverlayEventSink;
use glint_overlay::geometry::{OverlayLayout, PercentLength, Rect};
use glint_overlay::integration::{
    can_resize, integration_enabled, wait_for_window_added, wait_for_window_resized, window_added,
    window_resized, WaitStep, Waited, WAIT_SLICE_MS,
};
use glint_overlay::paint_cmd::BlockingCursor;
use glint_overlay::server::{
    disconnect, end_session, greeting, handle_window_event, listen_step, ListenAction, ListenEvent,
    Listening, PipeRole, WindowRequest, PIPE_RETRY_SECONDS,
};
use glint_overlay::texture::SharedHandle;

fn luid() -> GpuLuid {
    GpuLuid { low: 1, high: 2 }
}

fn open(handle: SharedHandle) -> Result<OverlaySurface, i32> {
    Ok(OverlaySurface { handle, size: (100, 50) })
}

fn calc(_layout: OverlayLayout, _size: (u32, u32), _window: (u32, u32)) -> (i32, i32) {
    (3, 4)
}

fn resolve(length: PercentLength, _span: u32) -> i32 {
    match length {
        PercentLength::Length(n) => n as i32,
        PercentLength::Percent(_) => 0,
    }
}

struct World {
    backends: Backends,
    route: LowLevelInput,
    sink: OverlayEventSink,
}

impl World {
    fn new() -> World {
        let mut backends = Backends::new();
        backends.put(7, WindowBackend::new(7, luid(), (800, 600)));
        World { backends, route: LowLevelInput::new(), sink: OverlayEventSink::new() }
    }

    fn request(&mut self, client: u64, hwnd: u32, request: WindowRequest, role: PipeRole) -> bool {
        handle_window_event(
            &mut self.backends,
            &mut self.route,
            &mut self.sink,
            client,
            hwnd,
            request,
            role,
            open,
            &calc,
            &resolve,
        )
    }
}

#[test]
fn pipes_are_kept_apart() {
    let handle = SharedHandle::new(9);
    let shell_only = WindowRequest::UpdateSharedHandle { handle };
    assert!(shell_only.permitted(PipeRole::Shell));
    assert!(!shell_only.permitted(PipeRole::Cef));
    let layer = WindowRequest::UpdateLayerHandle { layer: 1, handle };
    assert!(layer.permitted(PipeRole::Cef));
    assert!(!layer.permitted(PipeRole::Shell));
    let zero = WindowRequest::UpdateLayerHandle { layer: 0, handle };
    assert!(!zero.permitted(PipeRole::Cef));
    let both = WindowRequest::BlockInput { block: true };
    assert!(both.permitted(PipeRole::Shell) && both.permitted(PipeRole::Cef));
}

#[test]
fn shown_layer_belongs_to_its_client() {
    let mut world = World::new();
    let client = world.sink.add();
    let handle = SharedHandle::new(9);
    assert!(world.request(
        client,
        7,
        WindowRequest::UpdateLayerHandle { layer: 2, handle },
        PipeRole::Cef
    ));
    assert_eq!(world.sink.owner_of_layer(2), Some(client));
    assert!(!world.request(
        client,
        7,
        WindowRequest::UpdateSharedHandle { handle },
        PipeRole::Cef
    ));
    assert!(!world.request(
        client,
        8,
        WindowRequest::UpdateLayerHandle { layer: 2, handle },
        PipeRole::Cef
    ));
}

#[test]
fn requests_change_the_window() {
    let mut world = World::new();
    let client = world.sink.add();
    let two = PercentLength::Length(2);
    assert!(world.request(
        client,
        7,
        WindowRequest::SetPosition { x: two, y: two },
        PipeRole::Shell
    ));
    assert!(world.request(
        client,
        7,
        WindowRequest::ListenInput { cursor: true, keyboard: false },
        PipeRole::Shell
    ));
    assert!(world.request(client, 7, WindowRequest::BlockInput { block: true }, PipeRole::Shell));
    assert!(world.request(
        client,
        7,
        WindowRequest::SetBlockingCursor { cursor: BlockingCursor::Hidden },
        PipeRole::Shell
    ));
    let mut window = world.backends.take(7).unwrap();
    assert_eq!(window.layout().position, (two, two));
    assert!(window.proc.listening_cursor());
    assert!(!window.proc.listening_keyboard());
    assert_eq!(window.proc.blocking_cursor, BlockingCursor::Hidden);
    assert_eq!(window.take_tasks(), vec![GuiTask::Block]);
    assert_eq!(window.gpu_luid(), luid());
}

#[test]
fn leaving_client_takes_its_layers_along() {
    let mut world = World::new();
    let client = world.sink.add();
    let handle = SharedHandle::new(9);
    world.request(
        client,
        7,
        WindowRequest::UpdateLayerHandle { layer: 2, handle },
        PipeRole::Cef,
    );
    let unbound = disconnect(
        &mut world.backends,
        &mut world.route,
        &mut world.sink,
        client,
        &calc,
        &resolve,
    );
    assert_eq!(unbound, vec![2]);
    assert!(!world.sink.connected());
    assert_eq!(world.sink.owner_of_layer(2), None);
    let mut window = world.backends.take(7).unwrap();
    assert!(window.render.draw_layers().iter().all(|layer| {
        layer.1.map_or(false, |update| update.handle.is_none())
    }));
}

#[test]
fn client_is_greeted_with_the_windows() {
    let mut world = World::new();
    assert_eq!(
        greeting(&mut world.backends),
        vec![OverlayEvent::Window {
            id: 7,
            event: WindowEvent::Added { width: 800, height: 600, gpu_id: luid() },
        }]
    );
}

#[test]
fn blocking_is_undone() {
    let mut world = World::new();
    let client = world.sink.add();
    let mut window = world.backends.take(7).unwrap();
    window.proc.position = (4, 5);
    let start = window.begin_block().unwrap();
    assert_eq!(start.position, (4, 5));
    window.proc.position = (8, 9);
    let data = InputBlockData {
        clip_cursor: None,
        old_ime_cx: 6,
        show_count: 1,
        saved_cursor: 2,
        class_cursor: 3,
    };
    assert!(window.finish_block(start, data, &mut world.route));
    assert_eq!(world.route.route_hwnd, 7);
    assert_eq!(world.route.route_position, (4, 5));
    assert!(window.begin_block().is_none());
    let (end, told) = window.end_block(7, &mut world.route, &mut world.sink).unwrap();
    assert_eq!(end.data, data);
    assert!(end.remove_hooks);
    assert_eq!(told.len(), 1);
    assert_eq!(told[0].client, client);
    assert_eq!(world.route.route_hwnd, 0);
    assert!(window.end_block(7, &mut world.route, &mut world.sink).is_none());
}

#[test]
fn whole_screen_clip_is_not_saved() {
    let screen = Rect { left: 0, top: 0, right: 1920, bottom: 1080 };
    assert_eq!(saved_clip(screen, 1920, 1080), None);
    let part = Rect { left: 0, top: 0, right: 1000, bottom: 1080 };
    assert_eq!(saved_clip(part, 1920, 1080), Some(part));
}

#[test]
fn window_is_made_once() {
    let mut world = World::new();
    world.sink.add();
    let (answer, told) = world
        .backends
        .with_or_init_backend(
            &mut world.sink,
            8,
            || Ok::<_, ()>((luid(), (640, 480))),
            |window| (window, 5),
        )
        .unwrap();
    assert_eq!((answer, told.len()), (5, 1));
    let again = world.backends.with_or_init_backend(
        &mut world.sink,
        8,
        || Err(()),
        |window| (window, 6),
    );
    assert_eq!(again.map(|(answer, told)| (answer, told.len())), Ok((6, 0)));
    let failed = world.backends.with_or_init_backend(
        &mut world.sink,
        9,
        || Err(4),
        |window| (window, 6),
    );
    assert_eq!(failed.map(|(answer, _)| answer), Err(4));
    assert_eq!(world.backends.with_backend(9, |window| (window, 1)), None);
    assert_eq!(world.backends.with_backend(8, |window| (window, 1)), Some(1));
}

#[test]
fn last_session_takes_everything_back() {
    let mut world = World::new();
    let client = world.sink.add();
    world.request(
        client,
        7,
        WindowRequest::ListenInput { cursor: true, keyboard: true },
        PipeRole::Shell,
    );
    let mut sessions = SessionCounter::new();
    sessions.enter();
    sessions.enter();
    assert!(!end_session(&mut sessions, &mut world.backends));
    assert_eq!(
        world.backends.with_backend(7, |window| {
            let listening = window.proc.listening_cursor();
            (window, listening)
        }),
        Some(true)
    );
    assert!(end_session(&mut sessions, &mut world.backends));
    assert_eq!(
        world.backends.with_backend(7, |window| {
            let listening = window.proc.listening_cursor();
            (window, listening)
        }),
        Some(false)
    );
}

#[test]
fn accepted_client_is_served_on_a_new_pipe() {
    let mut state = Listening::Client;
    let mut sessions = SessionCounter::new();
    assert_eq!(
        listen_step(&mut state, ListenEvent::Failed, &mut sessions),
        ListenAction::Connect
    );
    assert_eq!(listen_step(&mut state, ListenEvent::Came, &mut sessions), ListenAction::Create);
    assert_eq!(
        listen_step(&mut state, ListenEvent::Failed, &mut sessions),
        ListenAction::CreateAfter(PIPE_RETRY_SECONDS)
    );
    assert_eq!(listen_step(&mut state, ListenEvent::Came, &mut sessions), ListenAction::Serve);
    assert_eq!(state, Listening::Client);
    assert_eq!(sessions.leave(), 0);
}

#[test]
fn integration_runs_are_asked_for() {
    assert!(integration_enabled(Some("1")));
    assert!(!integration_enabled(Some("0")));
    assert!(!integration_enabled(None));
    let added = OverlayEvent::Window {
        id: 7,
        event: WindowEvent::Added { width: 8, height: 6, gpu_id: luid() },
    };
    assert_eq!(window_added(&added), Some((7, 8, 6, luid())));
    let resized =
        OverlayEvent::Window { id: 7, event: WindowEvent::Resized { width: 9, height: 5 } };
    assert_eq!(window_added(&resized), None);
    assert_eq!(window_resized(&resized, 7, None), Some((9, 5)));
    assert_eq!(window_resized(&resized, 7, Some((9, 6))), None);
    assert_eq!(window_resized(&resized, 8, None), None);
    assert!(can_resize(1, 1));
    assert!(!can_resize(0, 1));
}

#[test]
fn wait_goes_on_until_time_or_events_end() {
    let added = |width| {
        Waited::Event(OverlayEvent::Window {
            id: 7,
            event: WindowEvent::Added { width, height: 6, gpu_id: luid() },
        })
    };
    assert_eq!(wait_for_window_added(&Waited::Nothing, 3000), WaitStep::Wait(WAIT_SLICE_MS));
    assert_eq!(wait_for_window_added(&added(0), 3000), WaitStep::Wait(WAIT_SLICE_MS));
    assert_eq!(wait_for_window_added(&added(0), 0), WaitStep::GiveUp);
    assert_eq!(wait_for_window_added(&added(8), 0), WaitStep::Found((7, 8, 6, luid())));
    assert_eq!(wait_for_window_added(&Waited::Nothing, 0), WaitStep::GiveUp);
    assert_eq!(wait_for_window_added(&Waited::End, 3000), WaitStep::GiveUp);
    let resized = Waited::Event(OverlayEvent::Window {
        id: 7,
        event: WindowEvent::Resized { width: 9, height: 5 },
    });
    assert_eq!(
        wait_for_window_resized(&resized, 7, Some((9, 5)), 10),
        WaitStep::Found((9, 5))
    );
    assert_eq!(
        wait_for_window_resized(&resized, 7, Some((9, 6)), 10),
        WaitStep::Wait(WAIT_SLICE_MS)
    );
    assert_eq!(wait_for_window_resized(&resized, 8, None, 0), WaitStep::GiveUp);
    assert_eq!(wait_for_window_resized(&Waited::End, 7, None, 10), WaitStep::GiveUp);
}
