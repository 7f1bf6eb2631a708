//! Child processes of the game.
//!
//! A child is created suspended, gets the overlay, and runs on unless its
//! creator asked for it to be suspended. The shell's way to open a program is
//! turned into the creation of a process.

use vstd::prelude::*;

verus! {

/// The flag that creates a process with its primary thread suspended.
pub const CREATE_SUSPENDED: u32 = 0x4;

/// What the shell reports as the instance of a program that it has opened.
pub const STEAM_SHELL_HINSTANCE: isize = 1238;

/// The caller of the shell wants to keep the handle of the process.
pub const SEE_MASK_NOCLOSEPROCESS: u32 = 0x40;

/// `"open"`.
pub open spec fn open_verb() -> Seq<u16> {
    seq![0x6F, 0x70, 0x65, 0x6E]
}

/// `".exe"`.
pub open spec fn exe_suffix() -> Seq<u16> {
    seq![0x2E, 0x65, 0x78, 0x65]
}

/// The text behind a reference, if there is one.
pub open spec fn text<T>(units: Option<&[T]>) -> Option<Seq<T>> {
    match units {
        None => None,
        Some(units) => Some(units@),
    }
}

/// Whether a verb opens the file: there is none, or it is empty, or `open`.
pub open spec fn opens(verb: Option<Seq<u16>>) -> bool {
    match verb {
        None => true,
        Some(verb) => verb.len() == 0 || verb == open_verb(),
    }
}

/// Whether a file is a program: there is a name before its `.exe`.
pub open spec fn is_program(file: Seq<u16>) -> bool {
    file.len() > 4 && file.skip(file.len() - 4) == exe_suffix()
}

/// Whether the shell's work is done by creating a process.
pub open spec fn creates(verb: Option<Seq<u16>>, file: Option<Seq<u16>>) -> bool {
    opens(verb) && (file matches Some(file) && is_program(file))
}

/// Whether a file's name holds a space or a tabulator.
pub open spec fn spaced(file: Seq<u16>) -> bool {
    file.contains(0x20) || file.contains(0x09)
}

/// A command line: the file, in quotes where its name is spaced, then the
/// parameters if there are any, then the terminator.
pub open spec fn command_line(file: Seq<u16>, params: Option<Seq<u16>>) -> Seq<u16> {
    let program = if spaced(file) {
        seq![0x22u16] + file + seq![0x22u16]
    } else {
        file
    };
    let arguments = match params {
        Some(params) if params.len() > 0 => seq![0x20u16] + params,
        _ => Seq::empty(),
    };
    program + arguments + seq![0u16]
}

/// Whether a verb opens the file.
pub fn steam_shell_verb_open_or_empty(verb: Option<&[u16]>) -> (open: bool)
    ensures
        open == opens(text(verb)),
{
    match verb {
        None => true,
        Some(v) => {
            let open = v.len() == 4 && v[0] == 0x6F && v[1] == 0x70 && v[2] == 0x65 && v[3] == 0x6E;
            assert(open == (v@ =~= open_verb()));
            v.len() == 0 || open
        },
    }
}

/// Whether a file is a program.
pub fn steam_shell_file_is_exe(file: &[u16]) -> (exe: bool)
    ensures
        exe == is_program(file@),
{
    let n: usize = file.len();
    if n <= 4 {
        return false;
    }
    let exe = file[n - 4] == 0x2E && file[n - 3] == 0x65 && file[n - 2] == 0x78 && file[n - 1]
        == 0x65;
    proof {
        let tail = file@.skip(n - 4);
        assert(tail[0] == file@[n - 4] && tail[1] == file@[n - 3] && tail[2] == file@[n - 2]
            && tail[3] == file@[n - 1]);
        assert(exe == (tail =~= exe_suffix()));
    }
    exe
}

/// Whether the shell's work is done by creating a process.
pub fn steam_shell_should_create(verb: Option<&[u16]>, file: Option<&[u16]>) -> (create: bool)
    ensures
        create == creates(text(verb), text(file)),
{
    let program = match file {
        Some(file) => steam_shell_file_is_exe(file),
        None => false,
    };
    steam_shell_verb_open_or_empty(verb) && program
}

/// Whether a file's name has to be quoted on a command line.
pub fn steam_shell_needs_quotes(file: &[u16]) -> (quotes: bool)
    ensures
        quotes == spaced(file@),
{
    let mut i: usize = 0;
    while i < file.len()
        invariant
            i <= file.len(),
            forall|k: int| 0 <= k < i ==> file@[k] != 0x20 && file@[k] != 0x09,
        decreases file.len() - i,
    {
        if file[i] == 0x20 || file[i] == 0x09 {
            assert(file@.contains(file@[i as int]));
            return true;
        }
        i += 1;
    }
    false
}

/// The command line of a program that the shell is asked to open.
pub fn steam_shell_cmdline(file: &[u16], params: Option<&[u16]>) -> (line: Vec<u16>)
    ensures
        line@ == command_line(file@, text(params)),
{
    let mut out: Vec<u16> = Vec::new();
    if steam_shell_needs_quotes(file) {
        out.push(0x22);
        out.extend_from_slice(file);
        out.push(0x22);
        assert(out@ =~= seq![0x22u16] + file@ + seq![0x22u16]);
    } else {
        out.extend_from_slice(file);
        assert(out@ =~= file@);
    }
    let ghost program = out@;
    match params {
        Some(params) => {
            if params.len() > 0 {
                out.push(0x20);
                out.extend_from_slice(params);
                assert(out@ =~= program + (seq![0x20u16] + params@));
            } else {
                assert(out@ =~= program + Seq::empty());
            }
        },
        None => {
            assert(out@ =~= program + Seq::empty());
        },
    }
    out.push(0);
    assert(out@ =~= command_line(file@, text(params)));
    out
}

/// The same text in wide units.
pub open spec fn widened(bytes: Seq<u8>) -> Seq<u16> {
    bytes.map_values(|byte: u8| byte as u16)
}

/// The same optional text in wide units.
pub open spec fn widened_text(bytes: Option<Seq<u8>>) -> Option<Seq<u16>> {
    match bytes {
        None => None,
        Some(bytes) => Some(widened(bytes)),
    }
}

/// Widens each byte of a text.
pub fn u8_as_u16(bytes: &[u8]) -> (wide: Vec<u16>)
    ensures
        wide@ == widened(bytes@),
{
    let mut out: Vec<u16> = Vec::new();
    let mut i: usize = 0;
    while i < bytes.len()
        invariant
            i <= bytes.len(),
            out@.len() == i,
            forall|k: int| 0 <= k < i ==> out@[k] == bytes@[k] as u16,
        decreases bytes.len() - i,
    {
        out.push(bytes[i] as u16);
        i += 1;
    }
    assert(out@ =~= widened(bytes@));
    out
}

/// Whether a file's name in bytes has to be quoted on a command line.
fn bytes_need_quotes(file: &[u8]) -> (quotes: bool)
    ensures
        quotes == spaced(widened(file@)),
{
    let mut i: usize = 0;
    while i < file.len()
        invariant
            i <= file.len(),
            forall|k: int| 0 <= k < i ==> file@[k] != 0x20 && file@[k] != 0x09,
        decreases file.len() - i,
    {
        if file[i] == 0x20 || file[i] == 0x09 {
            assert(widened(file@)[i as int] == file@[i as int] as u16);
            return true;
        }
        i += 1;
    }
    assert forall|k: int| 0 <= k < file@.len() implies widened(file@)[k] != 0x20 && widened(
        file@,
    )[k] != 0x09 by {
        assert(widened(file@)[k] == file@[k] as u16);
    }
    false
}

/// The command line in bytes of a program that the shell is asked to open.
pub fn steam_shell_cmdline_a(file: &[u8], params: Option<&[u8]>) -> (line: Vec<u8>)
    ensures
        widened(line@) == command_line(widened(file@), widened_text(text(params))),
{
    let mut out: Vec<u8> = Vec::new();
    if bytes_need_quotes(file) {
        out.push(0x22);
        out.extend_from_slice(file);
        out.push(0x22);
        assert(widened(out@) =~= seq![0x22u16] + widened(file@) + seq![0x22u16]);
    } else {
        out.extend_from_slice(file);
        assert(widened(out@) =~= widened(file@));
    }
    let ghost program = widened(out@);
    match params {
        Some(params) => {
            if params.len() > 0 {
                out.push(0x20);
                out.extend_from_slice(params);
                assert(widened(out@) =~= program + (seq![0x20u16] + widened(params@)));
            } else {
                assert(widened(out@) =~= program + Seq::empty());
            }
        },
        None => {
            assert(widened(out@) =~= program + Seq::empty());
        },
    }
    let ghost before = widened(out@);
    out.push(0);
    assert(widened(out@) =~= before + seq![0u16]);
    out
}

/// The child that a successful creation has made, unless it is no process or
/// the game itself.
pub open spec fn observed(create_ok: bool, child_pid: u32, self_pid: u32) -> Option<u32> {
    if create_ok && child_pid != 0 && child_pid != self_pid {
        Some(child_pid)
    } else {
        None
    }
}

/// The child that is to get the overlay.
pub fn observed_child_pid(create_ok: bool, child_pid: u32, self_pid: u32) -> (child: Option<u32>)
    ensures
        child == observed(create_ok, child_pid, self_pid),
{
    if create_ok && child_pid != 0 && child_pid != self_pid {
        Some(child_pid)
    } else {
        None
    }
}

/// The flags that a process is really created with.
pub fn steam_create_flags(original: u32) -> (flags: u32)
    ensures
        flags == original | CREATE_SUSPENDED,
        flags & CREATE_SUSPENDED == CREATE_SUSPENDED,
{
    assert((original | 0x4u32) & 0x4u32 == 0x4u32) by (bit_vector);
    original | CREATE_SUSPENDED
}

/// Whether the primary thread is to run on: its creator did not suspend it.
pub fn should_resume_primary(original: u32) -> (resume: bool)
    ensures
        resume == (original & CREATE_SUSPENDED == 0),
{
    original & CREATE_SUSPENDED == 0
}

/// A created process: its identifier and the handles of it and of its primary
/// thread.
#[derive(Debug, Clone, Copy, PartialEq, Eq, Structural)]
pub struct ChildProcess {
    pub pid: u32,
    pub process: usize,
    pub thread: usize,
}

/// What is done about a created process, in this order. The last error of the
/// thread is kept across both steps.
#[derive(Debug, Clone, Copy, PartialEq, Eq, Structural)]
pub struct ChildSteps {
    /// The child that gets the overlay.
    pub inject: Option<ChildProcess>,
    /// The thread that is resumed.
    pub resume: Option<usize>,
}

/// Nothing to do.
pub open spec fn no_steps() -> ChildSteps {
    ChildSteps { inject: None, resume: None }
}

/// What a creation reported: none where the caller passed no place for it.
pub open spec fn child_or_zero(reported: Option<ChildProcess>) -> ChildProcess {
    match reported {
        Some(child) => child,
        None => ChildProcess { pid: 0, process: 0, thread: 0 },
    }
}

/// Whether a handle stands for nothing.
pub open spec fn invalid_handle(handle: usize) -> bool {
    handle == 0 || handle == usize::MAX
}

/// What is done about a created process.
pub open spec fn steps(
    create_ok: bool,
    flags: u32,
    reported: Option<ChildProcess>,
    self_pid: u32,
    can_inject: bool,
) -> ChildSteps {
    let child = child_or_zero(reported);
    ChildSteps {
        inject: if can_inject && observed(create_ok, child.pid, self_pid) is Some {
            Some(child)
        } else {
            None
        },
        resume: if create_ok && flags & CREATE_SUSPENDED == 0 && reported is Some
            && !invalid_handle(child.thread) {
            Some(child.thread)
        } else {
            None
        },
    }
}

/// What is done after a creation; `flags` are those that the creator passed.
pub fn after_create(
    create_ok: bool,
    flags: u32,
    reported: Option<ChildProcess>,
    self_pid: u32,
    can_inject: bool,
) -> (plan: ChildSteps)
    ensures
        plan == steps(create_ok, flags, reported, self_pid, can_inject),
{
    let child = match reported {
        Some(child) => child,
        None => ChildProcess { pid: 0, process: 0, thread: 0 },
    };
    let inject = match observed_child_pid(create_ok, child.pid, self_pid) {
        Some(_) => {
            if can_inject {
                Some(child)
            } else {
                None
            }
        },
        None => None,
    };
    let resume = if !create_ok || !should_resume_primary(flags) || reported.is_none() {
        None
    } else if child.thread == 0 || child.thread == usize::MAX {
        None
    } else {
        Some(child.thread)
    };
    ChildSteps { inject, resume }
}

/// A detoured creation: the real function is called with the primary thread
/// suspended. Without a real function nothing is created.
pub fn create_process<F: FnOnce(u32) -> (i32, Option<ChildProcess>)>(
    original: Option<F>,
    flags: u32,
    self_pid: u32,
    can_inject: bool,
) -> (outcome: (i32, ChildSteps))
    requires
        original matches Some(create) ==> call_requires(create, (flags | CREATE_SUSPENDED,)),
    ensures
        original is None ==> outcome.0 == 0 && outcome.1 == no_steps(),
        original matches Some(create) ==> exists|made: (i32, Option<ChildProcess>)| #[trigger]
            call_ensures(create, (flags | CREATE_SUSPENDED,), made) && outcome.0 == made.0
                && outcome.1 == steps(made.0 != 0, flags, made.1, self_pid, can_inject),
{
    match original {
        None => (0, ChildSteps { inject: None, resume: None }),
        Some(create) => {
            let made = create(steam_create_flags(flags));
            let plan = after_create(made.0 != 0, flags, made.1, self_pid, can_inject);
            assert(call_ensures(create, (flags | CREATE_SUSPENDED,), made));
            (made.0, plan)
        },
    }
}

/// A request to the shell.
pub struct ShellRequest<T> {
    pub verb: Option<Vec<T>>,
    pub file: Option<Vec<T>>,
    pub params: Option<Vec<T>>,
    pub dir: Option<Vec<T>>,
    pub mask: u32,
    pub instance: isize,
    pub process: usize,
}

/// A process to create, with no flags: the file, the command line and the
/// directory, the last two terminated.
pub struct ShellLaunch<T> {
    pub file: Vec<T>,
    pub cmdline: Vec<T>,
    pub dir: Option<Vec<T>>,
}

/// What came of a request that may be done by creating a process.
pub struct ShellOutcome {
    /// The request is done.
    pub done: bool,
    /// The handles that are closed.
    pub closed: Vec<usize>,
}

/// The text of an owned string, if there is one.
pub open spec fn owned_text<T>(units: Option<Vec<T>>) -> Option<Seq<T>> {
    match units {
        None => None,
        Some(units) => Some(units@),
    }
}

/// A terminated directory; an empty one stands for none.
pub open spec fn terminated<T>(dir: Option<Seq<T>>, zero: T) -> Option<Seq<T>> {
    match dir {
        Some(dir) if dir.len() > 0 => Some(dir.push(zero)),
        _ => None,
    }
}

/// The launch that stands for a request in wide units.
pub open spec fn wide_launch(request: ShellRequest<u16>, launch: ShellLaunch<u16>) -> bool {
    &&& owned_text(request.file) == Some(launch.file@)
    &&& launch.cmdline@ == command_line(launch.file@, owned_text(request.params))
    &&& owned_text(launch.dir) == terminated(owned_text(request.dir), 0u16)
}

/// The launch that stands for a request in bytes.
pub open spec fn byte_launch(request: ShellRequest<u8>, launch: ShellLaunch<u8>) -> bool {
    &&& owned_text(request.file) == Some(launch.file@)
    &&& widened(launch.cmdline@) == command_line(
        widened(launch.file@),
        widened_text(owned_text(request.params)),
    )
    &&& owned_text(launch.dir) == terminated(owned_text(request.dir), 0u8)
}

/// The request after a creation that made `made`.
pub open spec fn answered<T>(
    request: ShellRequest<T>,
    made: Option<ChildProcess>,
) -> ShellRequest<T> {
    match made {
        None => request,
        Some(child) => ShellRequest {
            instance: STEAM_SHELL_HINSTANCE,
            process: if request.mask & SEE_MASK_NOCLOSEPROCESS == 0 {
                0
            } else {
                child.process
            },
            ..request
        },
    }
}

/// The handles that are closed after a creation that made `made`.
pub open spec fn closes(mask: u32, made: Option<ChildProcess>) -> Seq<usize> {
    match made {
        None => Seq::empty(),
        Some(child) => if mask & SEE_MASK_NOCLOSEPROCESS == 0 {
            seq![child.thread, child.process]
        } else {
            seq![child.thread]
        },
    }
}

/// Records a created process in the request.
fn answer<T>(request: &mut ShellRequest<T>, made: Option<ChildProcess>) -> (outcome: ShellOutcome)
    ensures
        *final(request) == answered(*old(request), made),
        outcome.done == made is Some,
        outcome.closed@ == closes(old(request).mask, made),
{
    let mut closed: Vec<usize> = Vec::new();
    match made {
        None => ShellOutcome { done: false, closed },
        Some(child) => {
            closed.push(child.thread);
            request.instance = STEAM_SHELL_HINSTANCE;
            if request.mask & SEE_MASK_NOCLOSEPROCESS == 0 {
                closed.push(child.process);
                request.process = 0;
            } else {
                request.process = child.process;
            }
            assert(closed@ =~= closes(old(request).mask, made));
            ShellOutcome { done: true, closed }
        },
    }
}

/// The text of an owned string.
fn borrowed<T>(units: &Option<Vec<T>>) -> (units_ref: Option<&[T]>)
    ensures
        text(units_ref) == owned_text(*units),
{
    match units {
        None => None,
        Some(units) => Some(units.as_slice()),
    }
}

/// A terminated directory in wide units.
fn wide_dir(dir: &Option<Vec<u16>>) -> (dir_z: Option<Vec<u16>>)
    ensures
        owned_text(dir_z) == terminated(owned_text(*dir), 0u16),
{
    match dir {
        None => None,
        Some(dir) => {
            if dir.len() == 0 {
                return None;
            }
            let mut out: Vec<u16> = Vec::new();
            out.extend_from_slice(dir.as_slice());
            out.push(0);
            assert(out@ =~= dir@.push(0));
            Some(out)
        },
    }
}

/// A terminated directory in bytes.
fn byte_dir(dir: &Option<Vec<u8>>) -> (dir_z: Option<Vec<u8>>)
    ensures
        owned_text(dir_z) == terminated(owned_text(*dir), 0u8),
{
    match dir {
        None => None,
        Some(dir) => {
            if dir.len() == 0 {
                return None;
            }
            let mut out: Vec<u8> = Vec::new();
            out.extend_from_slice(dir.as_slice());
            out.push(0);
            assert(out@ =~= dir@.push(0));
            Some(out)
        },
    }
}

/// Does a request in wide units by creating a process, where it opens a
/// program. Where it does not, or the creation fails, the request is untouched.
pub fn try_shell_create_w(
    request: &mut ShellRequest<u16>,
    create: impl FnOnce(ShellLaunch<u16>) -> Option<ChildProcess>,
) -> (outcome: ShellOutcome)
    requires
        forall|launch: ShellLaunch<u16>|
            creates(owned_text(old(request).verb), owned_text(old(request).file)) && wide_launch(
                *old(request),
                launch,
            ) ==> #[trigger] call_requires(create, (launch,)),
    ensures
        if !creates(owned_text(old(request).verb), owned_text(old(request).file)) {
            !outcome.done && outcome.closed@.len() == 0 && *final(request) == *old(request)
        } else {
            exists|launch: ShellLaunch<u16>, made: Option<ChildProcess>|
                wide_launch(*old(request), launch) && #[trigger] call_ensures(
                    create,
                    (launch,),
                    made,
                ) && outcome.done == made is Some && outcome.closed@ == closes(
                    old(request).mask,
                    made,
                ) && *final(request) == answered(*old(request), made)
        },
{
    let create_it = steam_shell_should_create(borrowed(&request.verb), borrowed(&request.file));
    if !create_it {
        return ShellOutcome { done: false, closed: Vec::new() };
    }
    let mut file: Vec<u16> = Vec::new();
    let mut cmdline: Vec<u16> = Vec::new();
    match &request.file {
        None => {
            return ShellOutcome { done: false, closed: Vec::new() };
        },
        Some(name) => {
            file.extend_from_slice(name.as_slice());
            assert(file@ =~= name@);
            cmdline = steam_shell_cmdline(name.as_slice(), borrowed(&request.params));
        },
    }
    let launch = ShellLaunch { file, cmdline, dir: wide_dir(&request.dir) };
    assert(wide_launch(*old(request), launch));
    let made = create(launch);
    assert(call_ensures(create, (launch,), made));
    answer(request, made)
}

/// Does a request in bytes by creating a process, where it opens a program.
/// Where it does not, or the creation fails, the request is untouched.
pub fn try_shell_create_a(
    request: &mut ShellRequest<u8>,
    create: impl FnOnce(ShellLaunch<u8>) -> Option<ChildProcess>,
) -> (outcome: ShellOutcome)
    requires
        forall|launch: ShellLaunch<u8>|
            creates(
                widened_text(owned_text(old(request).verb)),
                widened_text(owned_text(old(request).file)),
            ) && byte_launch(*old(request), launch) ==> #[trigger] call_requires(create, (launch,)),
    ensures
        if !creates(
            widened_text(owned_text(old(request).verb)),
            widened_text(owned_text(old(request).file)),
        ) {
            !outcome.done && outcome.closed@.len() == 0 && *final(request) == *old(request)
        } else {
            exists|launch: ShellLaunch<u8>, made: Option<ChildProcess>|
                byte_launch(*old(request), launch) && #[trigger] call_ensures(
                    create,
                    (launch,),
                    made,
                ) && outcome.done == made is Some && outcome.closed@ == closes(
                    old(request).mask,
                    made,
                ) && *final(request) == answered(*old(request), made)
        },
{
    let verb = match &request.verb {
        Some(verb) => Some(u8_as_u16(verb.as_slice())),
        None => None,
    };
    let wide_file = match &request.file {
        Some(file) => Some(u8_as_u16(file.as_slice())),
        None => None,
    };
    if !steam_shell_should_create(borrowed(&verb), borrowed(&wide_file)) {
        return ShellOutcome { done: false, closed: Vec::new() };
    }
    let mut file: Vec<u8> = Vec::new();
    let mut cmdline: Vec<u8> = Vec::new();
    match &request.file {
        None => {
            return ShellOutcome { done: false, closed: Vec::new() };
        },
        Some(name) => {
            file.extend_from_slice(name.as_slice());
            assert(file@ =~= name@);
            cmdline = steam_shell_cmdline_a(name.as_slice(), borrowed(&request.params));
        },
    }
    let launch = ShellLaunch { file, cmdline, dir: byte_dir(&request.dir) };
    assert(byte_launch(*old(request), launch));
    let made = create(launch);
    assert(call_ensures(create, (launch,), made));
    answer(request, made)
}

/// The answer of the detoured shell: 1 for a request that a process was created
/// for, else that of the real function, and 0 without one.
pub fn shell_execute<F: FnOnce() -> i32>(done: bool, original: Option<F>) -> (answer: i32)
    requires
        !done ==> (original matches Some(execute) ==> call_requires(execute, ())),
    ensures
        done ==> answer == 1,
        !done ==> match original {
            None => answer == 0,
            Some(execute) => call_ensures(execute, (), answer),
        },
{
    if done {
        return 1;
    }
    match original {
        None => 0,
        Some(execute) => execute(),
    }
}

/// Registers what brings the overlay into a child. Only the first registration
/// counts.
pub fn set_child_inject<T>(registered: &mut Option<T>, inject: T)
    ensures
        *final(registered) == match *old(registered) {
            Some(first) => Some(first),
            None => Some(inject),
        },
{
    if registered.is_none() {
        *registered = Some(inject);
    }
}

/// The real functions behind the detours, each where it could be detoured.
#[derive(Debug, Clone, Copy, PartialEq, Eq, Structural)]
pub struct Hooks {
    pub create_process_a: Option<usize>,
    pub create_process_w: Option<usize>,
    pub shell_execute_ex_a: Option<usize>,
    pub shell_execute_ex_w: Option<usize>,
}

/// The real function that creates a process from wide text, once it is
/// detoured.
pub fn create_process_w_original(hooks: &Option<Hooks>) -> (original: Option<usize>)
    ensures
        original == match *hooks {
            Some(hooks) => hooks.create_process_w,
            None => None,
        },
{
    match hooks {
        Some(hooks) => hooks.create_process_w,
        None => None,
    }
}

/// A child is always created suspended, so it cannot run before it has the
/// overlay; and a child whose creator did not suspend it is resumed exactly
/// when it was created with a valid thread.
pub proof fn law_child_runs_as_asked(flags: u32, child: ChildProcess, self_pid: u32)
    ensures
        (flags | CREATE_SUSPENDED) & CREATE_SUSPENDED == CREATE_SUSPENDED,
        forall|can_inject: bool|
            #![trigger steps(true, flags, Some(child), self_pid, can_inject)]
            (steps(true, flags, Some(child), self_pid, can_inject).resume is Some) == (flags
                & CREATE_SUSPENDED == 0 && !invalid_handle(child.thread)),
{
    assert((flags | 0x4u32) & 0x4u32 == 0x4u32) by (bit_vector);
}

/// A failed creation has no further steps.
pub proof fn law_failed_creation_is_left_alone(
    flags: u32,
    reported: Option<ChildProcess>,
    self_pid: u32,
    can_inject: bool,
)
    ensures
        steps(false, flags, reported, self_pid, can_inject) == no_steps(),
{
}

/// A verb opens the file exactly if there is none, or it is empty, or it reads
/// `open`, letter by letter.
pub proof fn law_only_open_opens(verb: Option<&[u16]>, open: bool)
    requires
        call_ensures(steam_shell_verb_open_or_empty, (verb,), open),
    ensures
        verb is None ==> open,
        verb matches Some(units) ==> (open <==> (units@.len() == 0 || (units@.len() == 4
            && units@[0] == 0x6F && units@[1] == 0x70 && units@[2] == 0x65 && units@[3] == 0x6E))),
{
    if let Some(units) = verb {
        if units@.len() == 4 && units@[0] == 0x6F && units@[1] == 0x70 && units@[2] == 0x65
            && units@[3] == 0x6E {
            assert(units@ =~= open_verb());
        }
    }
}

/// A file is a program exactly if something stands before its ending, which
/// reads `.exe`, letter by letter.
pub proof fn law_programs_end_in_exe(file: &[u16], exe: bool)
    requires
        call_ensures(steam_shell_file_is_exe, (file,), exe),
    ensures
        exe <==> (file@.len() >= 5 && file@[file@.len() - 4] == 0x2E && file@[file@.len() - 3]
            == 0x65 && file@[file@.len() - 2] == 0x78 && file@[file@.len() - 1] == 0x65),
{
    if file@.len() > 4 {
        let tail = file@.skip(file@.len() - 4);
        assert(tail[0] == file@[file@.len() - 4] && tail[1] == file@[file@.len() - 3] && tail[2]
            == file@[file@.len() - 2] && tail[3] == file@[file@.len() - 1]);
        if tail[0] == 0x2E && tail[1] == 0x65 && tail[2] == 0x78 && tail[3] == 0x65 {
            assert(tail =~= exe_suffix());
        }
    }
}

/// A process is created for exactly those requests whose verb opens and whose
/// file is a program.
pub proof fn law_programs_are_created_when_opened(
    verb: Option<&[u16]>,
    file: Option<&[u16]>,
    create: bool,
    open: bool,
    exe: bool,
)
    requires
        call_ensures(steam_shell_should_create, (verb, file), create),
        call_ensures(steam_shell_verb_open_or_empty, (verb,), open),
        file matches Some(name) ==> call_ensures(steam_shell_file_is_exe, (name,), exe),
    ensures
        create <==> (open && file is Some && exe),
{
}

/// A file's name is quoted exactly if a space or a tabulator stands somewhere
/// in it.
pub proof fn law_spaced_names_are_quoted(file: &[u16], quotes: bool)
    requires
        call_ensures(steam_shell_needs_quotes, (file,), quotes),
    ensures
        quotes <==> exists|k: int|
            0 <= k < file@.len() && (#[trigger] file@[k] == 0x20 || file@[k] == 0x09),
{
    if exists|k: int| 0 <= k < file@.len() && (#[trigger] file@[k] == 0x20 || file@[k] == 0x09) {
        let k = choose|k: int|
            0 <= k < file@.len() && (#[trigger] file@[k] == 0x20 || file@[k] == 0x09);
        assert(file@.contains(file@[k]));
    }
    if file@.contains(0x20) {
        let k = file@.index_of(0x20);
        assert(file@[k] == 0x20);
    }
    if file@.contains(0x09) {
        let k = file@.index_of(0x09);
        assert(file@[k] == 0x09);
    }
}

/// A command line ends in its only terminator. The file stands in it unit by
/// unit, behind a quote and before another where it is quoted; the parameters
/// follow behind one space, and without parameters nothing does.
pub proof fn law_command_line_holds_file_and_parameters(
    file: &[u16],
    params: Option<&[u16]>,
    quotes: bool,
    line: Vec<u16>,
)
    requires
        call_ensures(steam_shell_needs_quotes, (file,), quotes),
        call_ensures(steam_shell_cmdline, (file, params), line),
    ensures
        ({
            let at = if quotes {
                1
            } else {
                0int
            };
            let end = file@.len() + 2 * at;
            let given = if params is Some {
                params->0@.len()
            } else {
                0
            };
            &&& line@.len() == end + (if given > 0 {
                given + 1
            } else {
                0
            }) + 1
            &&& line@[line@.len() - 1] == 0
            &&& quotes ==> line@[0] == 0x22 && line@[end - 1] == 0x22
            &&& forall|k: int| 0 <= k < file@.len() ==> line@[at + k] == #[trigger] file@[k]
            &&& given > 0 ==> line@[end] == 0x20
            &&& forall|k: int| 0 <= k < given ==> line@[end + 1 + k] == #[trigger] params->0@[k]
        }),
{
}

/// The command line in bytes is the one in wide units, byte by byte.
pub proof fn law_command_lines_agree(
    file: &[u8],
    params: Option<&[u8]>,
    line: Vec<u8>,
    wide_file: &[u16],
    wide_params: Option<&[u16]>,
    wide_line: Vec<u16>,
)
    requires
        call_ensures(steam_shell_cmdline_a, (file, params), line),
        call_ensures(steam_shell_cmdline, (wide_file, wide_params), wide_line),
        file@.len() == wide_file@.len(),
        forall|k: int| 0 <= k < file@.len() ==> #[trigger] wide_file@[k] == file@[k],
        (params is Some) == (wide_params is Some),
        params is Some ==> params->0@.len() == wide_params->0@.len() && forall|k: int|
            0 <= k < params->0@.len() ==> #[trigger] wide_params->0@[k] == params->0@[k],
    ensures
        line@.len() == wide_line@.len(),
        forall|k: int| 0 <= k < line@.len() ==> #[trigger] wide_line@[k] == line@[k],
{
    assert(wide_file@ =~= widened(file@));
    if params is Some {
        assert(wide_params->0@ =~= widened(params->0@));
    }
    assert(wide_line@ == widened(line@));
    assert forall|k: int| 0 <= k < line@.len() implies #[trigger] wide_line@[k] == line@[k] by {
        assert(widened(line@)[k] == line@[k] as u16);
    }
}

/// Widening keeps each byte's number.
pub proof fn law_widening_keeps_numbers(bytes: &[u8], wide: Vec<u16>)
    requires
        call_ensures(u8_as_u16, (bytes,), wide),
    ensures
        wide@.len() == bytes@.len(),
        forall|k: int| 0 <= k < bytes@.len() ==> #[trigger] wide@[k] == bytes@[k],
{
    assert forall|k: int| 0 <= k < bytes@.len() implies #[trigger] wide@[k] == bytes@[k] by {
        assert(widened(bytes@)[k] == bytes@[k] as u16);
    }
}

/// A child is observed under the identifier that it was created with, if it
/// was created, is a process, and is not the game itself.
pub proof fn law_children_are_observed_as_themselves(
    create_ok: bool,
    child_pid: u32,
    self_pid: u32,
    child: Option<u32>,
)
    requires
        call_ensures(observed_child_pid, (create_ok, child_pid, self_pid), child),
    ensures
        child matches Some(pid) ==> pid == child_pid,
        child is None <==> (!create_ok || child_pid == 0 || child_pid == self_pid),
{
}

/// A process is created with the third bit set, and with every other bit as
/// asked. Its primary thread runs on exactly if the creator left that bit out,
/// and after a creation with the changed flags it would not.
pub proof fn law_only_suspension_is_added(original: u32, flags: u32, resume: bool, again: bool)
    requires
        call_ensures(steam_create_flags, (original,), flags),
        call_ensures(should_resume_primary, (original,), resume),
        call_ensures(should_resume_primary, (flags,), again),
    ensures
        flags & 0x4 == 0x4,
        flags & 0xFFFF_FFFB == original & 0xFFFF_FFFB,
        resume <==> original & 0x4 == 0,
        resume <==> flags != original,
        !again,
{
    assert((original | 0x4) & 0x4 == 0x4 && (original | 0x4) & 0xFFFF_FFFB == original & 0xFFFF_FFFB
        && (original & 0x4 == 0) == (original | 0x4 != original)) by (bit_vector);
}

/// After a creation the child that was reported gets the overlay, as it was
/// reported, if it is observed and can get it; its own thread is resumed if
/// its creator did not suspend it and the thread's handle is valid.
pub proof fn law_created_child_is_treated_as_reported(
    create_ok: bool,
    flags: u32,
    reported: Option<ChildProcess>,
    self_pid: u32,
    can_inject: bool,
    plan: ChildSteps,
    resume: bool,
)
    requires
        call_ensures(after_create, (create_ok, flags, reported, self_pid, can_inject), plan),
        call_ensures(should_resume_primary, (flags,), resume),
    ensures
        plan.inject is Some ==> plan.inject == reported,
        plan.inject is Some <==> (create_ok && can_inject && reported is Some && reported->0.pid
            != 0 && reported->0.pid != self_pid),
        plan.resume is Some ==> reported is Some && plan.resume->0 == reported->0.thread,
        plan.resume is Some <==> (create_ok && resume && reported is Some && reported->0.thread
            != 0 && reported->0.thread != usize::MAX),
{
}

/// A detoured creation answers as the real function did, which was called with
/// the flag of suspension added, and does about the child what is to be done.
/// Where there is no real function it fails and does nothing.
pub proof fn law_detoured_creation_suspends<F: FnOnce(u32) -> (i32, Option<ChildProcess>)>(
    original: Option<F>,
    flags: u32,
    self_pid: u32,
    can_inject: bool,
    outcome: (i32, ChildSteps),
    suspended: u32,
)
    requires
        call_ensures(create_process::<F>, (original, flags, self_pid, can_inject), outcome),
        call_ensures(steam_create_flags, (flags,), suspended),
    ensures
        original is None ==> outcome.0 == 0 && outcome.1.inject is None && outcome.1.resume is None,
        original is Some ==> exists|made: (i32, Option<ChildProcess>)| #[trigger]
            call_ensures(original->0, (suspended,), made) && outcome.0 == made.0 && (
            outcome.1.inject is Some ==> outcome.1.inject == made.1) && (outcome.1.inject is Some
                <==> (made.0 != 0 && can_inject && made.1 is Some && made.1->0.pid != 0
                && made.1->0.pid != self_pid)) && (outcome.1.resume is Some ==> outcome.1.resume->0
                == made.1->0.thread) && (outcome.1.resume is Some <==> (made.0 != 0 && flags & 0x4
                == 0 && made.1 is Some && made.1->0.thread != 0 && made.1->0.thread
                != usize::MAX)),
{
    if original is Some {
        let made = choose|made: (i32, Option<ChildProcess>)| #[trigger]
            call_ensures(original->0, (flags | CREATE_SUSPENDED,), made) && outcome.0 == made.0
                && outcome.1 == steps(made.0 != 0, flags, made.1, self_pid, can_inject);
        assert(call_ensures(original->0, (suspended,), made));
    }
}

/// The shell's answer is 1 for a request that is done, without asking the real
/// function, and that function's own for another.
pub proof fn law_shell_answers<F: FnOnce() -> i32>(done: bool, original: Option<F>, answer: i32)
    requires
        call_ensures(shell_execute::<F>, (done, original), answer),
    ensures
        done ==> answer == 1,
        !done && original is None ==> answer == 0,
        !done && original is Some ==> call_ensures(original->0, (), answer),
{
}

/// What was registered first stays registered.
pub proof fn law_first_registration_stays<T>(registered: &mut Option<T>, inject: T)
    requires
        call_ensures(set_child_inject::<T>, (registered, inject), ()),
    ensures
        *old(registered) is Some ==> *final(registered) == *old(registered),
        *old(registered) is None ==> *final(registered) == Some(inject),
{
}

/// The real function for wide text is found where it was kept, and nowhere
/// before the detours stand.
pub proof fn law_real_creation_is_the_wide_one(hooks: Option<Hooks>, original: Option<usize>)
    requires
        call_ensures(create_process_w_original, (&hooks,), original),
    ensures
        hooks is None ==> original is None,
        hooks is Some ==> original == hooks->0.create_process_w,
{
}

/// A request in wide units is left alone where its verb does not open or its
/// file is no program. Else one creation is tried, with the file of the
/// request, its command line, and its directory with a terminator where it has
/// one; the request is answered as that creation went.
pub proof fn law_wide_request_is_launched_as_asked<
    F: FnOnce(ShellLaunch<u16>) -> Option<ChildProcess>,
>(request: &mut ShellRequest<u16>, create: F, outcome: ShellOutcome)
    requires
        call_ensures(try_shell_create_w, (request, create), outcome),
    ensures
        ({
            let verb = old(request).verb;
            let file = old(request).file;
            let opened = verb is None || verb->0@.len() == 0 || verb->0@ == seq![
                0x6Fu16,
                0x70,
                0x65,
                0x6E,
            ];
            let program = file is Some && file->0@.len() >= 5 && file->0@.subrange(
                file->0@.len() - 4,
                file->0@.len() as int,
            ) == seq![0x2Eu16, 0x65, 0x78, 0x65];
            if opened && program {
                exists|launch: ShellLaunch<u16>, made: Option<ChildProcess>|
                    {
                        &&& #[trigger] call_ensures(create, (launch,), made)
                        &&& launch.file@ == file->0@
                        &&& launch.cmdline@ == command_line(
                            file->0@,
                            match old(request).params {
                                Some(params) => Some(params@),
                                None => None,
                            },
                        )
                        &&& launch.dir is Some <==> (old(request).dir is Some && old(request).dir->0@.len() > 0)
                        &&& launch.dir is Some ==> launch.dir->0@ == old(request).dir->0@.push(0)
                        &&& outcome.done == made is Some
                        &&& made is None ==> *final(request) == *old(request)
                            && outcome.closed@.len() == 0
                        &&& made is Some ==> final(request).instance == 1238 && final(request).process == (if old(request).mask & 0x40 == 0 {
                            0
                        } else {
                            made->0.process
                        }) && outcome.closed@ == (if old(request).mask & 0x40 == 0 {
                            seq![made->0.thread, made->0.process]
                        } else {
                            seq![made->0.thread]
                        })
                    }
            } else {
                !outcome.done && outcome.closed@.len() == 0 && *final(request) == *old(request)
            }
        }),
{
    let verb = old(request).verb;
    let file = old(request).file;
    if file is Some && file->0@.len() > 4 {
        assert(file->0@.skip(file->0@.len() - 4) =~= file->0@.subrange(
            file->0@.len() - 4,
            file->0@.len() as int,
        ));
    }
    if creates(owned_text(verb), owned_text(file)) {
        let (launch, made) = choose|launch: ShellLaunch<u16>, made: Option<ChildProcess>|
            wide_launch(*old(request), launch) && #[trigger] call_ensures(create, (launch,), made)
                && outcome.done == made is Some && outcome.closed@ == closes(
                old(request).mask,
                made,
            ) && *final(request) == answered(*old(request), made);
        assert(call_ensures(create, (launch,), made));
    }
}

/// Widening tells apart neither more nor fewer texts than the bytes do.
proof fn lemma_widened_texts(verb: Option<Vec<u8>>, file: Option<Vec<u8>>)
    ensures
        opens(widened_text(owned_text(verb))) == (verb is None || verb->0@.len() == 0 || verb->0@
            == seq![0x6Fu8, 0x70, 0x65, 0x6E]),
        file is Some ==> is_program(widened(file->0@)) == (file->0@.len() >= 5 && file->0@.subrange(
            file->0@.len() - 4,
            file->0@.len() as int,
        ) == seq![0x2Eu8, 0x65, 0x78, 0x65]),
{
    if verb is Some {
        let units = verb->0@;
        if units.len() == 4 {
            assert(widened(units)[0] == units[0] && widened(units)[1] == units[1]
                && widened(units)[2] == units[2] && widened(units)[3] == units[3]);
            if widened(units) == open_verb() {
                assert(units =~= seq![0x6Fu8, 0x70, 0x65, 0x6E]);
            }
            if units == seq![0x6Fu8, 0x70, 0x65, 0x6E] {
                assert(widened(units) =~= open_verb());
            }
        }
    }
    if file is Some && file->0@.len() > 4 {
        let units = file->0@;
        let n = units.len() as int;
        let tail = widened(units).skip(n - 4);
        let bytes = units.subrange(n - 4, n);
        assert(tail[0] == bytes[0] && tail[1] == bytes[1] && tail[2] == bytes[2] && tail[3]
            == bytes[3]);
        if tail == exe_suffix() {
            assert(bytes =~= seq![0x2Eu8, 0x65, 0x78, 0x65]);
        }
        if bytes == seq![0x2Eu8, 0x65, 0x78, 0x65] {
            assert(tail =~= exe_suffix());
        }
    }
}

/// A request in bytes is left alone where its verb does not open or its
/// file is no program. Else one creation is tried, with the file of the
/// request, its command line, and its directory with a terminator where it has
/// one; the request is answered as that creation went.
pub proof fn law_byte_request_is_launched_as_asked<
    F: FnOnce(ShellLaunch<u8>) -> Option<ChildProcess>,
>(request: &mut ShellRequest<u8>, create: F, outcome: ShellOutcome)
    requires
        call_ensures(try_shell_create_a, (request, create), outcome),
    ensures
        ({
            let verb = old(request).verb;
            let file = old(request).file;
            let opened = verb is None || verb->0@.len() == 0 || verb->0@ == seq![
                0x6Fu8,
                0x70,
                0x65,
                0x6E,
            ];
            let program = file is Some && file->0@.len() >= 5 && file->0@.subrange(
                file->0@.len() - 4,
                file->0@.len() as int,
            ) == seq![0x2Eu8, 0x65, 0x78, 0x65];
            if opened && program {
                exists|launch: ShellLaunch<u8>, made: Option<ChildProcess>|
                    {
                        &&& #[trigger] call_ensures(create, (launch,), made)
                        &&& launch.file@ == file->0@
                        &&& widened(launch.cmdline@) == command_line(
                            widened(file->0@),
                            match old(request).params {
                                Some(params) => Some(widened(params@)),
                                None => None,
                            },
                        )
                        &&& launch.dir is Some <==> (old(request).dir is Some && old(request).dir->0@.len() > 0)
                        &&& launch.dir is Some ==> launch.dir->0@ == old(request).dir->0@.push(0)
                        &&& outcome.done == made is Some
                        &&& made is None ==> *final(request) == *old(request)
                            && outcome.closed@.len() == 0
                        &&& made is Some ==> final(request).instance == 1238 && final(request).process == (if old(request).mask & 0x40 == 0 {
                            0
                        } else {
                            made->0.process
                        }) && outcome.closed@ == (if old(request).mask & 0x40 == 0 {
                            seq![made->0.thread, made->0.process]
                        } else {
                            seq![made->0.thread]
                        })
                    }
            } else {
                !outcome.done && outcome.closed@.len() == 0 && *final(request) == *old(request)
            }
        }),
{
    let verb = old(request).verb;
    let file = old(request).file;
    if file is Some && file->0@.len() > 4 {
        assert(file->0@.skip(file->0@.len() - 4) =~= file->0@.subrange(
            file->0@.len() - 4,
            file->0@.len() as int,
        ));
    }
    lemma_widened_texts(verb, file);
    if creates(widened_text(owned_text(verb)), widened_text(owned_text(file))) {
        let (launch, made) = choose|launch: ShellLaunch<u8>, made: Option<ChildProcess>|
            byte_launch(*old(request), launch) && #[trigger] call_ensures(create, (launch,), made)
                && outcome.done == made is Some && outcome.closed@ == closes(
                old(request).mask,
                made,
            ) && *final(request) == answered(*old(request), made);
        assert(call_ensures(create, (launch,), made));
    }
}

} // verus!
