//! Decisions of the background daemon: where its files go, what becomes of
//! a failed daemonization, and how the end of one of its tasks shuts the
//! others down.
use crate::text::{owned, push_char, push_str};
use vstd::prelude::*;

verus! {

/// File-creation mask of the daemon (octal 027: no write for the group,
/// nothing for others).
pub const DAEMON_UMASK: u16 = 23;

/// Name of the daemon's standard-output log in the state directory.
pub const DAEMON_OUT: &'static str = "daemon.out";

/// Name of the daemon's standard-error log in the state directory.
pub const DAEMON_ERR: &'static str = "daemon.err";

/// Name of the daemon's pid file in the state directory.
pub const DAEMON_PID: &'static str = "deport.pid";

/// A relative `name` joined onto the directory `dir` as a Unix path: a `/`
/// goes between them unless `dir` is empty or already ends with `/`.
pub open spec fn path_join(dir: Seq<char>, name: Seq<char>) -> Seq<char> {
    if dir.len() == 0 || dir.last() == '/' {
        dir + name
    } else {
        dir + seq!['/'] + name
    }
}

/// The path of the file `name` in the directory `dir`.
pub fn state_file(dir: &str, name: &str) -> (p: String)
    ensures
        p@ == path_join(dir@, name@),
{
    let n = dir.unicode_len();
    let mut p = owned(dir);
    if n > 0 && dir.get_char(n - 1) != '/' {
        push_char(&mut p, '/');
    }
    push_str(&mut p, name);
    p
}

/// How turning into a background process went.
#[derive(Debug, Clone)]
pub enum Daemonized {
    /// Another daemon holds the pid file.
    AlreadyRunning,
    /// Daemonization failed with this message.
    Failed(String),
    /// This process is now the daemon.
    Started,
}

/// The message to print before exiting with status 1, or `None` when this
/// process is the daemon and goes on to serve.
pub fn daemonize_report(outcome: Daemonized) -> (r: Option<String>)
    ensures
        match outcome {
            Daemonized::AlreadyRunning => r matches Some(m) && m@ == "Daemon already running"@,
            Daemonized::Failed(e) => r matches Some(m) && m@ == "Daemonization error: "@ + e@,
            Daemonized::Started => r is None,
        },
{
    match outcome {
        Daemonized::AlreadyRunning => Some(owned("Daemon already running")),
        Daemonized::Failed(e) => {
            let mut m = owned("Daemonization error: ");
            push_str(&mut m, e.as_str());
            Some(m)
        },
        Daemonized::Started => None,
    }
}

/// The long-running tasks of the daemon.
#[derive(Debug, Clone, Copy, PartialEq, Eq, Structural)]
pub enum DaemonTask {
    Proxy,
    Worker,
    Ipc,
}

/// What the daemon's main loop hears about first.
#[derive(Debug, Clone)]
pub enum TaskEvent {
    /// A shutdown was signalled.
    ShutdownSignal,
    /// A task ended; `panic` holds the panic report when it panicked.
    TaskEnded { task: DaemonTask, panic: Option<String> },
}

/// What the daemon's main loop logs, and whether it tells the other tasks
/// to shut down.
pub struct ShutdownStep {
    pub message: String,
    pub is_error: bool,
    pub broadcast: bool,
}

/// How a task is named in the daemon's log.
pub open spec fn task_name(task: DaemonTask) -> Seq<char> {
    match task {
        DaemonTask::Proxy => "Proxy"@,
        DaemonTask::Worker => "Worker"@,
        DaemonTask::Ipc => "IPC"@,
    }
}

/// The daemon's reaction to the first thing it hears: a shutdown signal is
/// logged (the tasks hear it themselves); a task that ended, gracefully or
/// by panicking, is logged and the shutdown is passed on to the others.
pub fn shutdown_step(event: TaskEvent) -> (s: ShutdownStep)
    ensures
        match event {
            TaskEvent::ShutdownSignal => s.message@
                == "Shutdown signal received, propagating to tasks..."@ && !s.is_error
                && !s.broadcast,
            TaskEvent::TaskEnded { task, panic } => s.broadcast && match panic {
                None => !s.is_error && s.message@ == task_name(task) + " task shut down gracefully."@,
                Some(p) => s.is_error && s.message@ == task_name(task) + " task panicked: "@ + p@,
            },
        },
{
    match event {
        TaskEvent::ShutdownSignal => ShutdownStep {
            message: owned("Shutdown signal received, propagating to tasks..."),
            is_error: false,
            broadcast: false,
        },
        TaskEvent::TaskEnded { task, panic } => {
            let mut message = match task {
                DaemonTask::Proxy => owned("Proxy"),
                DaemonTask::Worker => owned("Worker"),
                DaemonTask::Ipc => owned("IPC"),
            };
            match panic {
                None => {
                    push_str(&mut message, " task shut down gracefully.");
                    ShutdownStep { message, is_error: false, broadcast: true }
                },
                Some(p) => {
                    push_str(&mut message, " task panicked: ");
                    push_str(&mut message, p.as_str());
                    ShutdownStep { message, is_error: true, broadcast: true }
                },
            }
        },
    }
}

/// The termination signals the daemon listens for.
#[derive(Debug, Clone, Copy, PartialEq, Eq, Structural)]
pub enum StopSignal {
    Terminate,
    Interrupt,
}

/// What the daemon logs when a termination signal arrives.
pub fn signal_message(sig: StopSignal) -> (m: &'static str)
    ensures
        m@ == match sig {
            StopSignal::Terminate => "SIGTERM received"@,
            StopSignal::Interrupt => "SIGINT received"@,
        },
{
    match sig {
        StopSignal::Terminate => "SIGTERM received",
        StopSignal::Interrupt => "SIGINT received",
    }
}

} // verus!
