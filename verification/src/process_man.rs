//! Decisions of the daemon's process supervisor: the configuration of a
//! managed dev server, its life-cycle states, how an exit or a kill request
//! changes them, and the environment a child is started with.
use crate::text::{copy_string, decimal, owned, parse_u16, parse_u16_spec, push_str, write_decimal};
use vstd::prelude::*;

verus! {

/// Port of the proxy when none is configured.
pub const DEFAULT_PROXY_PORT: u16 = 1999;

/// State code of a process that is still running.
pub const STATE_RUNNING: u8 = 0;

/// State code of a process that exited successfully.
pub const STATE_EXITED: u8 = 1;

/// State code of a process that exited with failure or could not be waited on.
pub const STATE_FAILED: u8 = 2;

/// State code of a process that was stopped.
pub const STATE_STOPPED: u8 = 3;

/// How to start a managed dev server.
#[derive(Debug, Clone)]
pub struct ProcessConfig {
    pub name: String,
    pub command: String,
    pub args: Vec<String>,
    /// Fixed port; `None` lets the daemon pick a free one.
    pub port: Option<u16>,
    pub env: Vec<(String, String)>,
    pub cwd: Option<String>,
}

/// What the daemon reports about a managed process.
#[derive(Debug, Clone)]
pub struct ProcessInfo {
    pub pid: u32,
    pub name: String,
    pub port: u16,
    pub state: ProcessState,
    pub exit_code: Option<i32>,
}

/// Life-cycle state of a managed process.
#[derive(Debug, Clone, Copy, PartialEq, Eq, Structural)]
pub enum ProcessState {
    Running,
    Exited,
    Failed,
    Stopped,
}

/// The state a stored state code stands for; unknown codes count as failed.
pub open spec fn state_of_code(code: u8) -> ProcessState {
    if code == STATE_RUNNING {
        ProcessState::Running
    } else if code == STATE_EXITED {
        ProcessState::Exited
    } else if code == STATE_STOPPED {
        ProcessState::Stopped
    } else {
        ProcessState::Failed
    }
}

/// Decodes a stored state code.
pub fn state_from_code(code: u8) -> (s: ProcessState)
    ensures
        s == state_of_code(code),
{
    if code == STATE_RUNNING {
        ProcessState::Running
    } else if code == STATE_EXITED {
        ProcessState::Exited
    } else if code == STATE_FAILED {
        ProcessState::Failed
    } else if code == STATE_STOPPED {
        ProcessState::Stopped
    } else {
        ProcessState::Failed
    }
}

/// Whether a stored state code means "running".
pub fn is_running_code(code: u8) -> (b: bool)
    ensures
        b == (code == STATE_RUNNING),
        b == (state_of_code(code) == ProcessState::Running),
{
    code == STATE_RUNNING
}

/// How waiting on a child ended.
#[derive(Debug, Clone, Copy, PartialEq, Eq, Structural)]
pub enum WaitOutcome {
    /// The child exited; `code` is its exit code if it has one.
    Exited { success: bool, code: Option<i32> },
    /// Waiting on the child failed.
    WaitFailed,
}

/// What the supervisor records when waiting on a child ends: the new state
/// code and, when the child exited, its exit code (`None` leaves the stored
/// exit code untouched).
pub open spec fn exit_record(outcome: WaitOutcome) -> (u8, Option<Option<i32>>) {
    match outcome {
        WaitOutcome::Exited { success, code } => (
            if success {
                STATE_EXITED
            } else {
                STATE_FAILED
            },
            Some(code),
        ),
        WaitOutcome::WaitFailed => (STATE_FAILED, None),
    }
}

/// The supervisor's bookkeeping once a child is gone.
pub fn settle_exit(outcome: WaitOutcome) -> (r: (u8, Option<Option<i32>>))
    ensures
        r == exit_record(outcome),
{
    match outcome {
        WaitOutcome::Exited { success, code } => {
            if success {
                (STATE_EXITED, Some(code))
            } else {
                (STATE_FAILED, Some(code))
            }
        },
        WaitOutcome::WaitFailed => (STATE_FAILED, None),
    }
}

/// Which `std::io::ErrorKind` a supervisor error carries.
#[derive(Debug, Clone, Copy, PartialEq, Eq, Structural)]
pub enum ErrorKind {
    NotFound,
    InvalidInput,
    BrokenPipe,
    AddrInUse,
}

/// Errors of process management.
#[derive(Debug, Clone, Copy, PartialEq, Eq, Structural)]
pub enum ProcessError {
    /// No process has the requested name.
    NotFound,
    /// A kill was requested for a process that is not running.
    NotRunning,
    /// The supervisor task no longer takes commands.
    SupervisorDead,
    /// No free port could be found for the child.
    NoFreePort,
}

impl ProcessError {
    /// The I/O error kind the error is reported with.
    pub fn kind(&self) -> (k: ErrorKind)
        ensures
            k == match *self {
                ProcessError::NotFound => ErrorKind::NotFound,
                ProcessError::NotRunning => ErrorKind::InvalidInput,
                ProcessError::SupervisorDead => ErrorKind::BrokenPipe,
                ProcessError::NoFreePort => ErrorKind::AddrInUse,
            },
    {
        match self {
            ProcessError::NotFound => ErrorKind::NotFound,
            ProcessError::NotRunning => ErrorKind::InvalidInput,
            ProcessError::SupervisorDead => ErrorKind::BrokenPipe,
            ProcessError::NoFreePort => ErrorKind::AddrInUse,
        }
    }

    /// The message the error is reported with.
    pub fn message(&self) -> (s: &'static str)
        ensures
            s@ == match *self {
                ProcessError::NotFound => "Process not found!"@,
                ProcessError::NotRunning => "Process not running"@,
                ProcessError::SupervisorDead => "Supervisor dead"@,
                ProcessError::NoFreePort => "No free ports available"@,
            },
    {
        match self {
            ProcessError::NotFound => "Process not found!",
            ProcessError::NotRunning => "Process not running",
            ProcessError::SupervisorDead => "Supervisor dead",
            ProcessError::NoFreePort => "No free ports available",
        }
    }
}

/// Whether a kill request may be passed to the supervisor: only a running
/// process can be killed.
pub fn check_killable(code: u8) -> (r: Result<(), ProcessError>)
    ensures
        r is Ok <==> code == STATE_RUNNING,
        r is Err ==> r == Err::<(), ProcessError>(ProcessError::NotRunning),
{
    if code != STATE_RUNNING {
        Err(ProcessError::NotRunning)
    } else {
        Ok(())
    }
}

/// The managed process found under a name, or the not-found error.
pub fn lookup_process<T>(found: Option<T>) -> (r: Result<T, ProcessError>)
    ensures
        match found {
            Some(p) => r == Ok::<T, ProcessError>(p),
            None => r == Err::<T, ProcessError>(ProcessError::NotFound),
        },
{
    match found {
        Some(p) => Ok(p),
        None => Err(ProcessError::NotFound),
    }
}

/// The port a child is started on: the configured one, else the free port
/// found for it, else an error.
pub fn resolve_port(requested: Option<u16>, free: Option<u16>) -> (r: Result<u16, ProcessError>)
    ensures
        r == match requested {
            Some(p) => Ok(p),
            None => match free {
                Some(f) => Ok(f),
                None => Err(ProcessError::NoFreePort),
            },
        },
{
    match requested {
        Some(p) => Ok(p),
        None => match free {
            Some(f) => Ok(f),
            None => Err(ProcessError::NoFreePort),
        },
    }
}

/// The views of a list of environment pairs.
pub open spec fn env_views(env: Seq<(String, String)>) -> Seq<(Seq<char>, Seq<char>)> {
    env.map_values(|p: (String, String)| (p.0@, p.1@))
}

/// The environment a child is given: `PORT` and `HOST` first, then the
/// configured pairs (which, set later, win on a clash).
pub open spec fn child_env_spec(env: Seq<(String, String)>, port: u16) -> Seq<
    (Seq<char>, Seq<char>),
> {
    seq![("PORT"@, decimal(port as nat)), ("HOST"@, "127.0.0.1"@)] + env_views(env)
}

/// The environment variables, in the order they are set, for a child
/// started on `port` with `config`.
pub fn child_environment(config: &ProcessConfig, port: u16) -> (v: Vec<(String, String)>)
    ensures
        env_views(v@) == child_env_spec(config.env@, port),
{
    let mut v: Vec<(String, String)> = Vec::new();
    v.push((owned("PORT"), crate::text::decimal_string(port as u64)));
    v.push((owned("HOST"), owned("127.0.0.1")));
    let mut i: usize = 0;
    while i < config.env.len()
        invariant
            i <= config.env@.len(),
            env_views(v@) == child_env_spec(config.env@.take(i as int), port),
        decreases config.env@.len() - i,
    {
        let k = copy_string(&config.env[i].0);
        let val = copy_string(&config.env[i].1);
        let ghost v0 = v@;
        v.push((k, val));
        proof {
            assert(env_views(v@) =~= env_views(v0).push(
                (config.env@[i as int].0@, config.env@[i as int].1@),
            ));
            assert(config.env@.take(i + 1) =~= config.env@.take(i as int).push(config.env@[i as int]));
            assert(env_views(config.env@.take(i + 1)) =~= env_views(config.env@.take(i as int)).push(
                (config.env@[i as int].0@, config.env@[i as int].1@),
            ));
            assert(child_env_spec(config.env@.take(i + 1), port) =~= child_env_spec(
                config.env@.take(i as int),
                port,
            ).push((config.env@[i as int].0@, config.env@[i as int].1@)));
        }
        i = i + 1;
    }
    assert(config.env@.take(config.env@.len() as int) =~= config.env@);
    v
}

/// The proxy port chosen from a setting, and the rejected value when the
/// setting named a port outside `1024..65535`.
pub open spec fn proxy_port_choice_spec(setting: Option<Seq<char>>) -> (u16, Option<u16>) {
    let parsed = match setting {
        Some(s) => match parse_u16_spec(s) {
            Some(p) => p,
            None => DEFAULT_PROXY_PORT,
        },
        None => DEFAULT_PROXY_PORT,
    };
    if parsed < 1024 || parsed >= 65535 {
        (DEFAULT_PROXY_PORT, Some(parsed))
    } else {
        (parsed, None)
    }
}

/// The proxy port given the value of the proxy-port environment setting:
/// an unset or unparsable setting means the default; a port below 1024 or
/// at 65535 is rejected (reported back) and replaced by the default.
pub fn proxy_port_choice(setting: Option<&str>) -> (r: (u16, Option<u16>))
    ensures
        r == proxy_port_choice_spec(
            match setting {
                Some(s) => Some(s@),
                None => None,
            },
        ),
{
    let parsed = match setting {
        Some(s) => match parse_u16(s) {
            Some(p) => p,
            None => DEFAULT_PROXY_PORT,
        },
        None => DEFAULT_PROXY_PORT,
    };
    if parsed < 1024 || parsed >= 65535 {
        (DEFAULT_PROXY_PORT, Some(parsed))
    } else {
        (parsed, None)
    }
}

/// The warning printed when the proxy-port setting is rejected.
pub fn invalid_proxy_port_warning(port: u16) -> (s: String)
    ensures
        s@ == "Invalid proxy port: "@ + decimal(port as nat) + ". Using default: "@ + decimal(
            DEFAULT_PROXY_PORT as nat,
        ),
{
    let mut s = owned("Invalid proxy port: ");
    write_decimal(&mut s, port as u64);
    push_str(&mut s, ". Using default: ");
    write_decimal(&mut s, DEFAULT_PROXY_PORT as u64);
    s
}

/// The proxy port chosen is never a privileged port nor 65535.
pub proof fn law_proxy_port_in_range(setting: Option<Seq<char>>)
    ensures
        1024 <= proxy_port_choice_spec(setting).0 < 65535,
        proxy_port_choice_spec(setting).1 is None ==> proxy_port_choice_spec(setting).0
            == match setting {
            Some(s) => match parse_u16_spec(s) {
                Some(p) => p,
                None => DEFAULT_PROXY_PORT,
            },
            None => DEFAULT_PROXY_PORT,
        },
{
}

/// Once a child is gone it is never reported as running, and only a
/// successful exit is reported as exited.
pub proof fn law_exit_leaves_running(outcome: WaitOutcome)
    ensures
        state_of_code(exit_record(outcome).0) != ProcessState::Running,
        state_of_code(exit_record(outcome).0) == ProcessState::Exited <==> (outcome matches WaitOutcome::Exited { success, .. } && success),
{
}

/// The signal target that reaches a child's whole process group: the
/// negated pid, the pid read as a 32-bit signed number first.
pub open spec fn group_target(pid: u32) -> int {
    if pid < 0x8000_0000 {
        -(pid as int)
    } else {
        0x1_0000_0000 - pid
    }
}

/// The process-group target of a child started in a group of its own. The
/// pid 2^31 has no negation as a 32-bit signed number.
pub fn process_group_target(pid: u32) -> (t: i32)
    requires
        pid != 0x8000_0000,
    ensures
        t == group_target(pid),
{
    if pid < 0x8000_0000 {
        let p: i32 = pid as i32;
        -p
    } else {
        let back: u32 = 0xFFFF_FFFFu32 - pid + 1;
        back as i32
    }
}

/// What the supervisor of a child hears about.
#[derive(Debug, Clone, Copy, PartialEq, Eq, Structural)]
pub enum SupervisorEvent {
    /// Waiting on the child ended.
    Waited(WaitOutcome),
    /// A kill was requested.
    KillRequested,
}

/// What the supervisor does next.
#[derive(Debug, Clone, Copy, PartialEq, Eq, Structural)]
pub enum SupervisorAction {
    /// Store this state code (and exit code, when `Some`) and stop supervising.
    Record { state: u8, exit_code: Option<Option<i32>> },
    /// Send SIGTERM to this target and go on waiting, to reap the child.
    Terminate { target: i32 },
}

/// One step of a child's supervisor: an ended wait is recorded and ends the
/// supervision; a kill request terminates the child's process group and
/// leaves the supervisor waiting.
pub fn supervisor_step(event: SupervisorEvent, pid: u32) -> (a: SupervisorAction)
    requires
        event is KillRequested ==> pid != 0x8000_0000,
    ensures
        match event {
            SupervisorEvent::Waited(outcome) => a == (SupervisorAction::Record {
                state: exit_record(outcome).0,
                exit_code: exit_record(outcome).1,
            }),
            SupervisorEvent::KillRequested => a == (SupervisorAction::Terminate {
                target: group_target(pid) as i32,
            }),
        },
{
    match event {
        SupervisorEvent::Waited(outcome) => {
            let (state, exit_code) = settle_exit(outcome);
            SupervisorAction::Record { state, exit_code }
        },
        SupervisorEvent::KillRequested => SupervisorAction::Terminate {
            target: process_group_target(pid),
        },
    }
}

/// Every setting that reads as a port from 1024 to 65534 is taken as it is.
pub proof fn law_proxy_port_accepted(s: Seq<char>, port: u16)
    requires
        parse_u16_spec(s) == Some(port),
        1024 <= port < 65535,
    ensures
        proxy_port_choice_spec(Some(s)) == (port, None::<u16>),
{
}

/// A setting that reads as a port below 1024 or as 65535 is rejected and
/// reported, and the default port 1999 is used instead.
pub proof fn law_proxy_port_rejected(s: Seq<char>, port: u16)
    requires
        parse_u16_spec(s) == Some(port),
        port < 1024 || port >= 65535,
    ensures
        proxy_port_choice_spec(Some(s)) == (1999u16, Some(port)),
{
}

/// An unset setting, or one that does not read as a port, means the default
/// port 1999, with nothing to report.
pub proof fn law_proxy_port_default(s: Seq<char>)
    ensures
        parse_u16_spec(s) is None ==> proxy_port_choice_spec(Some(s)) == (1999u16, None::<u16>),
        proxy_port_choice_spec(None) == (1999u16, None::<u16>),
{
}

/// The kill target of a child is its pid negated as a 32-bit signed number:
/// it sums with the pid to a multiple of 2^32, it is a valid `i32`, and for
/// every pid below 2^31 (all real pids) it is exactly `-pid`, a process
/// group rather than a single process.
pub proof fn law_group_target(pid: u32)
    requires
        pid != 0x8000_0000,
    ensures
        (group_target(pid) + pid) % 0x1_0000_0000 == 0,
        -0x8000_0000 < group_target(pid) < 0x8000_0000,
        0 < pid < 0x8000_0000 ==> group_target(pid) == -(pid as int) && group_target(pid) < 0,
{
}

/// The four state codes stand for the four states, one each; only the
/// running code counts as running, and unknown codes count as failed.
pub proof fn law_state_codes(code: u8)
    ensures
        state_of_code(STATE_RUNNING) == ProcessState::Running,
        state_of_code(STATE_EXITED) == ProcessState::Exited,
        state_of_code(STATE_FAILED) == ProcessState::Failed,
        state_of_code(STATE_STOPPED) == ProcessState::Stopped,
        state_of_code(code) == ProcessState::Running <==> code == STATE_RUNNING,
        code > 3 ==> state_of_code(code) == ProcessState::Failed,
        STATE_RUNNING != STATE_EXITED && STATE_RUNNING != STATE_FAILED && STATE_RUNNING
            != STATE_STOPPED && STATE_EXITED != STATE_FAILED && STATE_EXITED != STATE_STOPPED
            && STATE_FAILED != STATE_STOPPED,
{
}

/// A child sees the chosen port as its first `PORT` variable and `HOST` as
/// 127.0.0.1, and the configured pairs follow unchanged and in order.
pub proof fn law_child_env(env: Seq<(String, String)>, port: u16)
    ensures
        child_env_spec(env, port).len() == env.len() + 2,
        child_env_spec(env, port)[0] == ("PORT"@, decimal(port as nat)),
        child_env_spec(env, port)[1] == ("HOST"@, "127.0.0.1"@),
        forall|i: int|
            0 <= i < env.len() ==> #[trigger] child_env_spec(env, port)[i + 2] == (
                env[i].0@,
                env[i].1@,
            ),
{
}

} // verus!
