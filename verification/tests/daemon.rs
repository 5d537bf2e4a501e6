use deport::daemon::{
    daemonize_report, shutdown_step, signal_message, state_file, DaemonTask, Daemonized,
    StopSignal, TaskEvent, DAEMON_ERR, DAEMON_OUT, DAEMON_PID, DAEMON_UMASK,
};
use deport::handle_command;
use deport::text::{debug_str, decimal_string, parse_u16};

#[test]
fn daemon_files() {
    assert_eq!(state_file("/var/lib/deported", DAEMON_OUT), "/var/lib/deported/daemon.out");
    assert_eq!(state_file("/var/lib/deported/", DAEMON_ERR), "/var/lib/deported/daemon.err");
    assert_eq!(state_file("", DAEMON_PID), "deport.pid");
    assert_eq!(DAEMON_UMASK, 0o027);
}

#[test]
fn daemonize_outcomes() {
    assert_eq!(daemonize_report(Daemonized::AlreadyRunning).as_deref(), Some("Daemon already running"));
    assert_eq!(
        daemonize_report(Daemonized::Failed("fork".to_string())).as_deref(),
        Some("Daemonization error: fork")
    );
    assert_eq!(daemonize_report(Daemonized::Started), None);
}

#[test]
fn shutdown_steps() {
    let s = shutdown_step(TaskEvent::ShutdownSignal);
    assert_eq!(s.message, "Shutdown signal received, propagating to tasks...");
    assert!(!s.broadcast && !s.is_error);
    let s = shutdown_step(TaskEvent::TaskEnded { task: DaemonTask::Ipc, panic: None });
    assert_eq!(s.message, "IPC task shut down gracefully.");
    assert!(s.broadcast && !s.is_error);
    let s = shutdown_step(TaskEvent::TaskEnded { task: DaemonTask::Proxy, panic: Some("JoinError".to_string()) });
    assert_eq!(s.message, "Proxy task panicked: JoinError");
    assert!(s.broadcast && s.is_error);
    assert_eq!(signal_message(StopSignal::Terminate), "SIGTERM received");
    assert_eq!(signal_message(StopSignal::Interrupt), "SIGINT received");
}

#[test]
fn text_helpers() {
    assert_eq!(parse_u16("65535"), Some(65535));
    assert_eq!(parse_u16("+7"), Some(7));
    assert_eq!(parse_u16("65536"), None);
    assert_eq!(parse_u16(""), None);
    assert_eq!(parse_u16("-1"), None);
    assert_eq!(decimal_string(0), "0");
    assert_eq!(decimal_string(1999), "1999");
    assert_eq!(debug_str("plain text"), "\"plain text\"");
    assert_eq!(debug_str("a\nb"), "\"a\\nb\"");
}

#[test]
fn bare_handler_reads_command_word() {
    handle_command(&["deport".to_string(), "run".to_string()]);
}
