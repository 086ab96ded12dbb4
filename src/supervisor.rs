use vstd::prelude::*;
use crate::decimal::{decimal, decimal_text};
use crate::paths::{BundlePath, parent_of};

verus! {

/// The operating-system family the shell runs on.
#[derive(Clone, Copy, Debug, PartialEq, Eq, Structural)]
pub enum Platform {
    MacOS,
    Windows,
    Linux,
}

/// Development builds talk to a backend started by hand; production builds
/// launch the bundled one.
#[derive(Clone, Copy, Debug, PartialEq, Eq, Structural)]
pub enum Mode {
    Development,
    Production,
}

/// The backend process the shell manages.  A pid of zero stands for "no
/// managed process".
#[derive(Clone, Copy, Debug, PartialEq, Eq, Structural)]
pub struct ProcessHandle {
    pub pid: u32,
    pub mode: Mode,
}

/// Why the bundled backend could not be started.
#[derive(Clone, Copy, Debug, PartialEq, Eq, Structural)]
pub enum StartupError {
    /// The resource directory could not be determined.
    ResourceDirUnavailable,
    /// The backend's installation directory does not exist.
    MissingResource,
    /// The directory of the runtime binary could not be determined.
    RuntimeDirUnavailable,
    /// The runtime binary does not exist.
    MissingRuntime,
    /// The operating system refused to launch the process.
    SpawnFailed,
}

/// Port on which the backend listens.
pub const BACKEND_PORT: u16 = 3000;

/// Seconds granted to the backend after launch before startup goes on.
pub const SETTLE_SECONDS: u64 = 2;

/// The handle used when no process is managed.
pub open spec fn sentinel() -> ProcessHandle {
    ProcessHandle { pid: 0, mode: Mode::Development }
}

/// Where the backend's files are installed, below the resource directory.
pub open spec fn server_dir_spec(resource_dir: Seq<Seq<char>>) -> Seq<Seq<char>> {
    resource_dir.push("server"@)
}

/// Where the runtime binary is installed, on platforms where it sits beside
/// the resources: below the application bundle on macOS, in the resource
/// directory on Linux.  Windows keeps it beside the executable instead (see
/// `windows_runtime_spec`).
pub open spec fn runtime_spec(platform: Platform, resource_dir: Seq<Seq<char>>) -> Option<
    Seq<Seq<char>>,
> {
    match platform {
        Platform::MacOS => match parent_of(resource_dir) {
            Some(contents) => Some(contents.push("MacOS"@).push("node"@)),
            None => None,
        },
        Platform::Linux => Some(resource_dir.push("node"@)),
        Platform::Windows => None,
    }
}

/// Where the runtime binary is installed on Windows: beside the executable.
pub open spec fn windows_runtime_spec(exe: Seq<Seq<char>>) -> Option<Seq<Seq<char>>> {
    match parent_of(exe) {
        Some(dir) => Some(dir.push("node.exe"@)),
        None => None,
    }
}

/// One environment variable handed to the backend.
pub struct EnvVar {
    pub name: String,
    pub value: String,
}

/// How to launch the backend: the runtime binary, the script it runs, the
/// working directory and the environment.  Standard streams are discarded.
pub struct LaunchSpec {
    pub program: BundlePath,
    pub script: BundlePath,
    pub working_dir: BundlePath,
    pub env: Vec<EnvVar>,
}

impl LaunchSpec {
    /// The launch of `runtime` on the backend installed in `server_dir`, in
    /// production mode, on the fixed port.
    pub open spec fn launches(&self, runtime: Seq<Seq<char>>, server_dir: Seq<Seq<char>>) -> bool {
        &&& self.program@ == runtime
        &&& self.script@ == server_dir.push("server.js"@)
        &&& self.working_dir@ == server_dir
        &&& self.env@.len() == 2
        &&& self.env@[0].name@ == "NODE_ENV"@
        &&& self.env@[0].value@ == "production"@
        &&& self.env@[1].name@ == "PORT"@
        &&& self.env@[1].value@ == decimal(BACKEND_PORT as nat)
    }
}

/// Where the start protocol stands.
pub enum StartStep {
    Idle,
    AwaitResourceDir,
    AwaitServerDir { resource_dir: BundlePath },
    AwaitExecutable { resource_dir: BundlePath },
    AwaitRuntime { resource_dir: BundlePath, runtime: BundlePath },
    AwaitSpawn,
    AwaitSettle { pid: u32 },
    Done,
}

/// What the surrounding program reports back after performing an action.
pub enum StartEvent {
    /// Startup begins.
    Begin,
    /// The resource directory, or none where it could not be determined.
    ResourceDir(Option<BundlePath>),
    /// Whether the path last asked about exists.
    Exists(bool),
    /// The path of the running executable, or none.
    Executable(Option<BundlePath>),
    /// The id of the launched process, or none where the launch failed.
    Spawned(Option<u32>),
    /// The settle interval has passed.
    Settled,
}

/// What the surrounding program is asked to do next.
pub enum StartAction {
    ResolveResourceDir,
    CheckExists(BundlePath),
    ResolveExecutable,
    Spawn(LaunchSpec),
    Sleep { seconds: u64 },
    Finish(Result<ProcessHandle, StartupError>),
    /// The event does not belong to the current step; nothing changes.
    Ignore,
}

/// Startup of the backend process, driven one event at a time.
pub struct Starter {
    pub platform: Platform,
    pub mode: Mode,
    pub step: StartStep,
}

fn launch_spec(runtime: BundlePath, server_dir: &BundlePath) -> (r: LaunchSpec)
    ensures
        r.launches(runtime@, server_dir@),
{
    let script = server_dir.join("server.js");
    let working_dir = server_dir.duplicate();
    let mut env: Vec<EnvVar> = Vec::new();
    env.push(EnvVar { name: String::from_str("NODE_ENV"), value: String::from_str("production") });
    env.push(EnvVar { name: String::from_str("PORT"), value: decimal_text(BACKEND_PORT as u64) });
    LaunchSpec { program: runtime, script, working_dir, env }
}

/// The runtime binary's path on macOS or Linux, from the resource directory.
pub fn runtime_path(platform: Platform, resource_dir: &BundlePath) -> (r: Option<BundlePath>)
    requires
        platform != Platform::Windows,
    ensures
        r is None <==> runtime_spec(platform, resource_dir@) is None,
        r matches Some(p) ==> runtime_spec(platform, resource_dir@) == Some(p@),
{
    match platform {
        Platform::MacOS => match resource_dir.parent() {
            Some(contents) => Some(contents.join("MacOS").join("node")),
            None => None,
        },
        _ => Some(resource_dir.join("node")),
    }
}

/// The runtime binary's path on Windows, from the executable's path.
pub fn windows_runtime_path(exe: &BundlePath) -> (r: Option<BundlePath>)
    ensures
        r is None <==> windows_runtime_spec(exe@) is None,
        r matches Some(p) ==> windows_runtime_spec(exe@) == Some(p@),
{
    match exe.parent() {
        Some(dir) => Some(dir.join("node.exe")),
        None => None,
    }
}

/// Whether `event` is the one that `step` waits for.
pub open spec fn accepts(step: StartStep, event: StartEvent) -> bool {
    match step {
        StartStep::Idle => event is Begin,
        StartStep::AwaitResourceDir => event is ResourceDir,
        StartStep::AwaitServerDir { .. } => event is Exists,
        StartStep::AwaitExecutable { .. } => event is Executable,
        StartStep::AwaitRuntime { .. } => event is Exists,
        StartStep::AwaitSpawn => event is Spawned,
        StartStep::AwaitSettle { .. } => event is Settled,
        StartStep::Done => false,
    }
}

impl Starter {
    /// A start that has not begun.
    pub fn new(platform: Platform, mode: Mode) -> (r: Starter)
        ensures
            r.platform == platform,
            r.mode == mode,
            r.step is Idle,
    {
        Starter { platform, mode, step: StartStep::Idle }
    }

    /// Takes the outcome of the last action and names the next one.
    ///
    /// In development the sentinel handle is returned at once, before any
    /// path is resolved.  In production the resource directory is resolved,
    /// the backend's directory must exist, the runtime binary is located by
    /// the platform's rule and must exist, it is launched, and after the
    /// settle interval its handle is returned.  Each failure ends the start
    /// with its own error.
    pub fn next(&mut self, event: StartEvent) -> (r: StartAction)
        ensures
            final(self).platform == old(self).platform,
            final(self).mode == old(self).mode,
            r is Ignore <==> !accepts(old(self).step, event),
            r is Ignore ==> final(self).step == old(self).step,
            r is Finish <==> (accepts(old(self).step, event) && final(self).step is Done),
            old(self).step is Idle && event is Begin ==> {
                if old(self).mode == Mode::Development {
                    r == StartAction::Finish(Ok(sentinel()))
                } else {
                    r is ResolveResourceDir && final(self).step is AwaitResourceDir
                }
            },
            old(self).step is AwaitResourceDir ==> (event matches StartEvent::ResourceDir(None)
                ==> r == StartAction::Finish(Err(StartupError::ResourceDirUnavailable))),
            old(self).step is AwaitResourceDir ==> (event matches StartEvent::ResourceDir(Some(rd))
                ==> (r matches StartAction::CheckExists(p) && p@ == server_dir_spec(rd@))
                && (final(self).step matches StartStep::AwaitServerDir { resource_dir }
                && resource_dir@ == rd@)),
            old(self).step matches StartStep::AwaitServerDir { resource_dir } ==> {
                &&& event == StartEvent::Exists(false) ==> r == StartAction::Finish(
                    Err(StartupError::MissingResource),
                )
                &&& event == StartEvent::Exists(true) && old(self).platform == Platform::Windows
                    ==> r is ResolveExecutable && (final(self).step matches StartStep::AwaitExecutable {
                    resource_dir: rd,
                } && rd@ == resource_dir@)
                &&& event == StartEvent::Exists(true) && old(self).platform != Platform::Windows
                    ==> match runtime_spec(old(self).platform, resource_dir@) {
                    None => r == StartAction::Finish(Err(StartupError::RuntimeDirUnavailable)),
                    Some(rt) => (r matches StartAction::CheckExists(p) && p@ == rt) && (
                    final(self).step matches StartStep::AwaitRuntime { resource_dir: rd, runtime }
                        && rd@ == resource_dir@ && runtime@ == rt),
                }
            },
            old(self).step matches StartStep::AwaitExecutable { resource_dir } ==> {
                &&& event matches StartEvent::Executable(None) ==> r == StartAction::Finish(
                    Err(StartupError::RuntimeDirUnavailable),
                )
                &&& event matches StartEvent::Executable(Some(exe)) ==> match windows_runtime_spec(
                    exe@,
                ) {
                    None => r == StartAction::Finish(Err(StartupError::RuntimeDirUnavailable)),
                    Some(rt) => (r matches StartAction::CheckExists(p) && p@ == rt) && (
                    final(self).step matches StartStep::AwaitRuntime { resource_dir: rd, runtime }
                        && rd@ == resource_dir@ && runtime@ == rt),
                }
            },
            old(self).step matches StartStep::AwaitRuntime { resource_dir, runtime } ==> {
                &&& event == StartEvent::Exists(false) ==> r == StartAction::Finish(
                    Err(StartupError::MissingRuntime),
                )
                &&& event == StartEvent::Exists(true) ==> (r matches StartAction::Spawn(spec)
                    && spec.launches(runtime@, server_dir_spec(resource_dir@)))
                    && final(self).step is AwaitSpawn
            },
            old(self).step is AwaitSpawn ==> {
                &&& event matches StartEvent::Spawned(None) ==> r == StartAction::Finish(
                    Err(StartupError::SpawnFailed),
                )
                &&& event matches StartEvent::Spawned(Some(pid)) ==> r == (StartAction::Sleep {
                    seconds: SETTLE_SECONDS,
                }) && final(self).step == (StartStep::AwaitSettle { pid })
            },
            old(self).step matches StartStep::AwaitSettle { pid } ==> (event is Settled ==> r
                == StartAction::Finish(Ok(ProcessHandle { pid, mode: Mode::Production }))),
    {
        let platform = self.platform;
        let mode = self.mode;
        match &self.step {
            StartStep::Idle => match event {
                StartEvent::Begin => match mode {
                    Mode::Development => {
                        self.step = StartStep::Done;
                        StartAction::Finish(Ok(ProcessHandle { pid: 0, mode: Mode::Development }))
                    },
                    Mode::Production => {
                        self.step = StartStep::AwaitResourceDir;
                        StartAction::ResolveResourceDir
                    },
                },
                _ => StartAction::Ignore,
            },
            StartStep::AwaitResourceDir => match event {
                StartEvent::ResourceDir(None) => {
                    self.step = StartStep::Done;
                    StartAction::Finish(Err(StartupError::ResourceDirUnavailable))
                },
                StartEvent::ResourceDir(Some(rd)) => {
                    let dir = rd.join("server");
                    self.step = StartStep::AwaitServerDir { resource_dir: rd };
                    StartAction::CheckExists(dir)
                },
                _ => StartAction::Ignore,
            },
            StartStep::AwaitServerDir { resource_dir } => match event {
                StartEvent::Exists(false) => {
                    self.step = StartStep::Done;
                    StartAction::Finish(Err(StartupError::MissingResource))
                },
                StartEvent::Exists(true) => match platform {
                    Platform::Windows => {
                        let rd = resource_dir.duplicate();
                        self.step = StartStep::AwaitExecutable { resource_dir: rd };
                        StartAction::ResolveExecutable
                    },
                    _ => match runtime_path(platform, resource_dir) {
                        None => {
                            self.step = StartStep::Done;
                            StartAction::Finish(Err(StartupError::RuntimeDirUnavailable))
                        },
                        Some(runtime) => {
                            let check = runtime.duplicate();
                            let rd = resource_dir.duplicate();
                            self.step = StartStep::AwaitRuntime { resource_dir: rd, runtime };
                            StartAction::CheckExists(check)
                        },
                    },
                },
                _ => StartAction::Ignore,
            },
            StartStep::AwaitExecutable { resource_dir } => match event {
                StartEvent::Executable(None) => {
                    self.step = StartStep::Done;
                    StartAction::Finish(Err(StartupError::RuntimeDirUnavailable))
                },
                StartEvent::Executable(Some(exe)) => match windows_runtime_path(&exe) {
                    None => {
                        self.step = StartStep::Done;
                        StartAction::Finish(Err(StartupError::RuntimeDirUnavailable))
                    },
                    Some(runtime) => {
                        let check = runtime.duplicate();
                        let rd = resource_dir.duplicate();
                        self.step = StartStep::AwaitRuntime { resource_dir: rd, runtime };
                        StartAction::CheckExists(check)
                    },
                },
                _ => StartAction::Ignore,
            },
            StartStep::AwaitRuntime { resource_dir, runtime } => match event {
                StartEvent::Exists(false) => {
                    self.step = StartStep::Done;
                    StartAction::Finish(Err(StartupError::MissingRuntime))
                },
                StartEvent::Exists(true) => {
                    let server = resource_dir.join("server");
                    let spec = launch_spec(runtime.duplicate(), &server);
                    self.step = StartStep::AwaitSpawn;
                    StartAction::Spawn(spec)
                },
                _ => StartAction::Ignore,
            },
            StartStep::AwaitSpawn => match event {
                StartEvent::Spawned(None) => {
                    self.step = StartStep::Done;
                    StartAction::Finish(Err(StartupError::SpawnFailed))
                },
                StartEvent::Spawned(Some(pid)) => {
                    self.step = StartStep::AwaitSettle { pid };
                    StartAction::Sleep { seconds: SETTLE_SECONDS }
                },
                _ => StartAction::Ignore,
            },
            StartStep::AwaitSettle { pid } => match event {
                StartEvent::Settled => {
                    let pid = *pid;
                    self.step = StartStep::Done;
                    StartAction::Finish(Ok(ProcessHandle { pid, mode: Mode::Production }))
                },
                _ => StartAction::Ignore,
            },
            StartStep::Done => StartAction::Ignore,
        }
    }
}

/// Program that force-terminates a process on `platform`.
pub open spec fn kill_program(platform: Platform) -> Seq<char> {
    if platform == Platform::Windows {
        "taskkill"@
    } else {
        "kill"@
    }
}

/// Arguments that force-terminate process `pid` on `platform`.
pub open spec fn kill_args(platform: Platform, pid: nat) -> Seq<Seq<char>> {
    if platform == Platform::Windows {
        seq!["/PID"@, decimal(pid), "/F"@]
    } else {
        seq!["-9"@, decimal(pid)]
    }
}

/// A command line that force-terminates the backend.
pub struct KillCommand {
    pub program: String,
    pub args: Vec<String>,
}

impl KillCommand {
    /// The command terminates process `pid` on `platform`.
    pub open spec fn terminates(&self, platform: Platform, pid: nat) -> bool {
        &&& self.program@ == kill_program(platform)
        &&& self.args@.map_values(|a: String| a@) == kill_args(platform, pid)
    }
}

/// How to stop the process behind `handle`: nothing for the sentinel, else a
/// forceful termination of its pid.  Whether that termination succeeds is
/// not reported: shutdown goes on regardless.
pub fn stop_command(platform: Platform, handle: ProcessHandle) -> (r: Option<KillCommand>)
    ensures
        r is None <==> handle.pid == 0,
        r matches Some(c) ==> c.terminates(platform, handle.pid as nat),
{
    if handle.pid == 0 {
        return None;
    }
    let pid = decimal_text(handle.pid as u64);
    let mut args: Vec<String> = Vec::new();
    let program = if platform == Platform::Windows {
        args.push(String::from_str("/PID"));
        args.push(pid);
        args.push(String::from_str("/F"));
        String::from_str("taskkill")
    } else {
        args.push(String::from_str("-9"));
        args.push(pid);
        String::from_str("kill")
    };
    let r = KillCommand { program, args };
    assert(r.args@.map_values(|a: String| a@) =~= kill_args(platform, handle.pid as nat));
    Some(r)
}

/// The backend process recorded at startup, shared by every shutdown path.
/// It hands out its stop command at most once.
pub struct ServerSlot {
    handle: Option<ProcessHandle>,
}

impl ServerSlot {
    /// The process currently recorded, if any.
    pub closed spec fn held(&self) -> Option<ProcessHandle> {
        self.handle
    }

    /// A slot with no process recorded.
    pub fn new() -> (r: ServerSlot)
        ensures
            r.held() is None,
    {
        ServerSlot { handle: None }
    }

    /// Records the process started at startup.
    pub fn record(&mut self, handle: ProcessHandle)
        ensures
            final(self).held() == Some(handle),
    {
        self.handle = Some(handle);
    }

    /// The recorded process, if any.
    pub fn current(&self) -> (r: Option<ProcessHandle>)
        ensures
            r == self.held(),
    {
        self.handle
    }

    /// Empties the slot and returns how to stop what it held: nothing when it
    /// was empty or held the sentinel.  A second call returns nothing, so the
    /// process is signalled at most once whichever shutdown path comes first.
    pub fn take_stop(&mut self, platform: Platform) -> (r: Option<KillCommand>)
        ensures
            final(self).held() is None,
            r is Some <==> (old(self).held() matches Some(h) && h.pid != 0),
            r matches Some(c) ==> c.terminates(platform, old(self).held().unwrap().pid as nat),
    {
        match self.handle.take() {
            Some(h) => stop_command(platform, h),
            None => None,
        }
    }
}

} // verus!
