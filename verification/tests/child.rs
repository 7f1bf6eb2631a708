//! Child processes, late loads and the order of hooks.

use glint_overlay::dll::{initialize, inject_plan, own_path, InitError, InjectPlan};
use glint_overlay::hook::child::{
    after_create, create_process, create_process_w_original, observed_child_pid, set_child_inject,
    shell_execute, should_resume_primary, steam_create_flags, steam_shell_cmdline,
    steam_shell_cmdline_a, steam_shell_should_create, try_shell_create_a, try_shell_create_w,
    u8_as_u16, ChildProcess, ChildSteps, Hooks, ShellRequest, SEE_MASK_NOCLOSEPROCESS,
    STEAM_SHELL_HINSTANCE,
};
use glint_overlay::hook::late::{
    attach_vtbl, attach_when_loaded, graphics_reinstall, load_library, AttachWhenLoaded,
    GraphicsPart, LoadSite,
};
use glint_overlay::hook::{install, HookGroup};

fn wide(s: &str) -> Vec<u16> {
    s.encode_utf16().collect()
}

fn child(pid: u32) -> ChildProcess {
    ChildProcess { pid, process: 0x10, thread: 0x20 }
}

#[test]
fn create_success_observes_child_pid() {
    assert_eq!(observed_child_pid(true, 4242, 7), Some(4242));
}

#[test]
fn create_failure_does_not_inject() {
    assert_eq!(observed_child_pid(false, 4242, 7), None);
}

#[test]
fn skip_self_pid_does_not_inject() {
    assert_eq!(observed_child_pid(true, 7, 7), None);
}

#[test]
fn shell_success_observes_child_pid() {
    assert_eq!(observed_child_pid(true, 99, 1), Some(99));
}

#[test]
fn shell_failure_does_not_inject() {
    assert_eq!(observed_child_pid(false, 99, 1), None);
}

#[test]
fn zero_pid_does_not_inject() {
    assert_eq!(observed_child_pid(true, 0, 7), None);
}

#[test]
fn steam_create_flags_ors_create_suspended() {
    assert_eq!(steam_create_flags(0), 4);
}

#[test]
fn steam_create_flags_already_suspended_stays() {
    assert_eq!(steam_create_flags(4), 4);
}

#[test]
fn steam_create_flags_keeps_other_bits() {
    assert_eq!(steam_create_flags(0x8), 0x8 | 4);
}

#[test]
fn should_resume_primary_when_caller_did_not_suspend() {
    assert!(should_resume_primary(0));
}

#[test]
fn should_resume_primary_false_when_caller_suspended() {
    assert!(!should_resume_primary(4));
}

#[test]
fn steam_shell_open_exe_rewrites_to_create() {
    let verb = wide("open");
    let file = wide(r"C:\game\game.exe");
    assert!(steam_shell_should_create(Some(&verb), Some(&file)));
    assert!(steam_shell_should_create(None, Some(&file)));
    assert!(steam_shell_should_create(Some(&[]), Some(&file)));
}

#[test]
fn steam_shell_non_exe_or_other_verb_stays_original() {
    let run = wide("runas");
    let file = wide(r"C:\game\game.exe");
    let txt = wide(r"C:\game\readme.txt");
    assert!(!steam_shell_should_create(Some(&run), Some(&file)));
    assert!(!steam_shell_should_create(None, Some(&txt)));
}

#[test]
fn shell_names_are_spelled_exactly() {
    assert!(!steam_shell_should_create(Some(&wide("OPEN")), Some(&wide("a.exe"))));
    assert!(!steam_shell_should_create(None, Some(&wide("a.EXE"))));
    assert!(!steam_shell_should_create(None, Some(&wide(".exe"))));
    assert!(!steam_shell_should_create(None, None));
}

#[test]
fn steam_shell_cmdline_quotes_spaces() {
    let file = wide(r"C:\Program Files\game.exe");
    let params = wide("-foo");
    let cmd = steam_shell_cmdline(&file, Some(&params));
    let s: String = String::from_utf16_lossy(&cmd[..cmd.len() - 1]);
    assert_eq!(s, r#""C:\Program Files\game.exe" -foo"#);
}

#[test]
fn plain_command_line_is_not_quoted() {
    assert_eq!(steam_shell_cmdline_a(b"game.exe", None), b"game.exe\0");
    assert_eq!(u8_as_u16(b"a\xff"), vec![0x61, 0xff]);
}

#[test]
fn created_child_is_injected_and_runs_as_asked() {
    let told = create_process(Some(|flags: u32| (flags as i32, Some(child(9)))), 0, 7, true);
    assert_eq!(told, (4, ChildSteps { inject: Some(child(9)), resume: Some(0x20) }));
    let asleep = after_create(true, 4, Some(child(9)), 7, true);
    assert_eq!(asleep, ChildSteps { inject: Some(child(9)), resume: None });
}

#[test]
fn failed_creation_is_left_alone() {
    let none = ChildSteps { inject: None, resume: None };
    assert_eq!(after_create(false, 0, Some(child(9)), 7, true), none);
    let told = create_process(Some(|_: u32| (0, None)), 0, 7, true);
    assert_eq!(told, (0, none));
}

#[test]
fn shell_request_becomes_a_launch() {
    let mut request = ShellRequest {
        verb: None,
        file: Some(wide("a b.exe")),
        params: None,
        dir: Some(wide("d")),
        mask: SEE_MASK_NOCLOSEPROCESS,
        instance: 0,
        process: 0,
    };
    let outcome = try_shell_create_w(&mut request, |launch| {
        assert_eq!(launch.cmdline, wide("\"a b.exe\"\0"));
        Some(child(9))
    });
    assert!(outcome.done);
    assert_eq!(outcome.closed, vec![0x20]);
    assert_eq!(request.instance, STEAM_SHELL_HINSTANCE);
    assert_eq!(request.process, 0x10);
}

#[test]
fn unwanted_process_handle_is_closed() {
    let mut request = ShellRequest {
        verb: Some(b"open".to_vec()),
        file: Some(b"a.exe".to_vec()),
        params: None,
        dir: None,
        mask: 0,
        instance: 0,
        process: 5,
    };
    let outcome = try_shell_create_a(&mut request, |_| Some(child(9)));
    assert!(outcome.done);
    let mut closed = outcome.closed;
    closed.sort();
    assert_eq!(closed, vec![0x10, 0x20]);
    let failed = try_shell_create_a(&mut request, |_| None);
    assert!(!failed.done);
    assert!(failed.closed.is_empty());
}

#[test]
fn undone_shell_request_goes_on() {
    assert_eq!(shell_execute(true, Some(|| 7)), 1);
    assert_eq!(shell_execute(false, Some(|| 7)), 7);
}

#[test]
fn first_injector_stays() {
    let mut slot = None;
    set_child_inject(&mut slot, 1);
    set_child_inject(&mut slot, 2);
    assert_eq!(slot, Some(1));
    let hooks = Hooks {
        create_process_a: None,
        create_process_w: Some(3),
        shell_execute_ex_a: None,
        shell_execute_ex_w: None,
    };
    assert_eq!(create_process_w_original(&None), None);
    assert_eq!(create_process_w_original(&Some(hooks)), Some(3));
}

#[test]
fn missing_then_present_attaches_without_gpu() {
    let mut cell = None;
    let mut attaches = 0;

    assert_eq!(
        attach_when_loaded(None::<()>, &mut cell, |_| {
            attaches += 1;
            "hooked"
        }),
        AttachWhenLoaded::Skipped
    );
    assert_eq!(attaches, 0);
    assert!(cell.is_none());

    assert_eq!(
        attach_when_loaded(Some(()), &mut cell, |_| {
            attaches += 1;
            "hooked"
        }),
        AttachWhenLoaded::Attached
    );
    assert_eq!(attaches, 1);
    assert_eq!(cell, Some("hooked"));

    assert_eq!(
        attach_when_loaded(Some(()), &mut cell, |_| {
            attaches += 1;
            "again"
        }),
        AttachWhenLoaded::AlreadyAttached
    );
    assert_eq!(attaches, 1);
}

#[test]
fn failed_table_hook_is_tried_again() {
    let mut cell = None;
    attach_vtbl(&mut cell, || None);
    assert_eq!(cell, None);
    attach_vtbl(&mut cell, || Some(4));
    attach_vtbl(&mut cell, || Some(5));
    assert_eq!(cell, Some(4));
}

#[test]
fn loads_go_on_and_reinstall_graphics() {
    let hooks = glint_overlay::hook::late::Hooks {
        kernelbase_exw: Some(1),
        kernelbase_exa: None,
        kernel32_exw: None,
        kernel32_exa: None,
        kernel32_w: Some(2),
        kernel32_a: None,
    };
    let (module, again) = load_library(&hooks, LoadSite::KernelbaseExw, |original| original + 100);
    assert_eq!(module, 101);
    assert!(again);
    assert_eq!(
        graphics_reinstall(),
        vec![
            GraphicsPart::Dx,
            GraphicsPart::FrameGeneration,
            GraphicsPart::D3d8,
            GraphicsPart::Ddraw,
            GraphicsPart::Opengl,
            GraphicsPart::Mantle,
        ]
    );
}

#[test]
fn install_takes_hinstance_not_hwnd() {
    let _: fn(Result<(), ()>) -> Result<Vec<HookGroup>, ()> = install;
    let mut instance = None;
    let hinstance: usize = 0x40;
    assert!(initialize(&mut instance, hinstance, || Ok::<(), ()>(())).is_ok());
    assert_eq!(instance, Some(hinstance));
}

#[test]
fn groups_are_hooked_unless_the_window_hooks_fail() {
    assert_eq!(
        install::<()>(Ok(())),
        Ok(vec![
            HookGroup::Graphics,
            HookGroup::Dinput,
            HookGroup::Xinput,
            HookGroup::Winmm,
            HookGroup::Hid,
            HookGroup::Setupapi,
            HookGroup::Gameinput,
            HookGroup::Combase,
            HookGroup::Child,
            HookGroup::Late,
        ])
    );
    assert_eq!(install(Err("no")), Err("no"));
}

#[test]
fn library_is_initialized_once() {
    let mut instance = None;
    assert!(initialize(&mut instance, 0x40, || Ok::<(), ()>(())).is_ok());
    assert_eq!(instance, Some(0x40));
    assert_eq!(
        initialize(&mut instance, 0x50, || Ok::<(), ()>(())),
        Err(InitError::AlreadyInitialized)
    );
    let mut other = None;
    assert_eq!(initialize(&mut other, 0x40, || Err(3)), Err(InitError::Hook(3)));
}

#[test]
fn own_path_is_what_was_written() {
    assert_eq!(own_path(&[1, 2, 3, 0], 3), Some(vec![1, 2, 3]));
    assert_eq!(own_path(&[1, 2, 3, 0], 0), None);
}

#[test]
fn stopped_child_is_injected_through_its_thread() {
    assert_eq!(inject_plan(9, 1, 2), InjectPlan::Stopped { process: 1, thread: 2 });
    assert_eq!(inject_plan(9, 0, 2), InjectPlan::ByPid { pid: 9 });
    assert_eq!(inject_plan(9, 1, 0), InjectPlan::ByPid { pid: 9 });
}
