use deport::launcher::{launch_port, PortSearch, SearchStep, NO_FREE_PORTS};
use deport::process_man::{
    check_killable, child_environment, lookup_process, invalid_proxy_port_warning, is_running_code,
    process_group_target, proxy_port_choice, resolve_port, settle_exit, state_from_code,
    supervisor_step, ErrorKind, ProcessConfig, ProcessError, ProcessState, SupervisorAction,
    SupervisorEvent, WaitOutcome, DEFAULT_PROXY_PORT, STATE_EXITED, STATE_FAILED, STATE_RUNNING,
    STATE_STOPPED,
};

#[test]
fn proxy_port_from_setting() {
    assert_eq!(proxy_port_choice(None), (DEFAULT_PROXY_PORT, None));
    assert_eq!(proxy_port_choice(Some("8443")), (8443, None));
    assert_eq!(proxy_port_choice(Some("garbage")), (1999, None));
    assert_eq!(proxy_port_choice(Some("80")), (1999, Some(80)));
    assert_eq!(proxy_port_choice(Some("65535")), (1999, Some(65535)));
    assert_eq!(proxy_port_choice(Some("1024")), (1024, None));
    assert_eq!(invalid_proxy_port_warning(80), "Invalid proxy port: 80. Using default: 1999");
}

#[test]
fn child_env_order() {
    let config = ProcessConfig {
        name: "w".to_string(),
        command: "npm".to_string(),
        args: vec![],
        port: None,
        env: vec![("A".to_string(), "1".to_string()), ("PORT".to_string(), "9".to_string())],
        cwd: None,
    };
    let env = child_environment(&config, 3000);
    let expect: Vec<(String, String)> = vec![("PORT", "3000"), ("HOST", "127.0.0.1"), ("A", "1"), ("PORT", "9")]
        .into_iter()
        .map(|(a, b)| (a.to_string(), b.to_string()))
        .collect();
    assert_eq!(env, expect);
}

#[test]
fn states_and_exits() {
    assert_eq!(state_from_code(STATE_RUNNING), ProcessState::Running);
    assert_eq!(state_from_code(STATE_EXITED), ProcessState::Exited);
    assert_eq!(state_from_code(STATE_FAILED), ProcessState::Failed);
    assert_eq!(state_from_code(STATE_STOPPED), ProcessState::Stopped);
    assert_eq!(state_from_code(200), ProcessState::Failed);
    assert!(is_running_code(STATE_RUNNING));
    assert!(!is_running_code(STATE_EXITED));
    assert_eq!(settle_exit(WaitOutcome::Exited { success: true, code: Some(0) }), (STATE_EXITED, Some(Some(0))));
    assert_eq!(settle_exit(WaitOutcome::Exited { success: false, code: None }), (STATE_FAILED, Some(None)));
    assert_eq!(settle_exit(WaitOutcome::WaitFailed), (STATE_FAILED, None));
}

#[test]
fn kill_checks_and_errors() {
    assert_eq!(check_killable(STATE_RUNNING), Ok(()));
    assert_eq!(check_killable(STATE_EXITED), Err(ProcessError::NotRunning));
    assert_eq!(ProcessError::NotRunning.message(), "Process not running");
    assert_eq!(ProcessError::NotRunning.kind(), ErrorKind::InvalidInput);
    assert_eq!(ProcessError::NotFound.message(), "Process not found!");
    assert_eq!(ProcessError::NotFound.kind(), ErrorKind::NotFound);
    assert_eq!(ProcessError::SupervisorDead.message(), "Supervisor dead");
    assert_eq!(ProcessError::NoFreePort.message(), "No free ports available");
    assert_eq!(resolve_port(Some(3000), Some(4000)), Ok(3000));
    assert_eq!(resolve_port(None, Some(4000)), Ok(4000));
    assert_eq!(resolve_port(None, None), Err(ProcessError::NoFreePort));
}

#[test]
fn supervisor_steps() {
    assert_eq!(process_group_target(1234), -1234);
    assert_eq!(process_group_target(0xFFFF_FFFF), 1);
    assert_eq!(supervisor_step(SupervisorEvent::KillRequested, 77), SupervisorAction::Terminate { target: -77 });
    assert_eq!(
        supervisor_step(SupervisorEvent::Waited(WaitOutcome::Exited { success: false, code: Some(2) }), 77),
        SupervisorAction::Record { state: STATE_FAILED, exit_code: Some(Some(2)) }
    );
}

#[test]
fn port_search_order() {
    let mut s = PortSearch::new(1999);
    assert_eq!(s.first_step(), SearchStep::Probe(1024));
    assert_eq!(s.after_probe(false), SearchStep::Probe(1124));
    assert_eq!(s.after_probe(true), SearchStep::Found(1124));
    let mut s = PortSearch::new(1999);
    let mut last = 0u16;
    let mut probes = 0u32;
    loop {
        match s.after_probe(false) {
            SearchStep::Probe(p) => {
                probes += 1;
                last = p;
                assert_ne!(p, 1999);
            }
            SearchStep::Found(_) => panic!("nothing was bound"),
            SearchStep::Exhausted => break,
        }
    }
    assert_eq!(last, 65535);
    assert_eq!(probes, 59 + 64511);
}

#[test]
fn lookups_and_launch_ports() {
    assert_eq!(lookup_process(Some(7)), Ok(7));
    assert_eq!(lookup_process::<u8>(None), Err(ProcessError::NotFound));
    assert_eq!(launch_port(Some(3000), Some(4000)), Ok(3000));
    assert_eq!(launch_port(None, Some(4000)), Ok(4000));
    assert_eq!(launch_port(None, None), Err(NO_FREE_PORTS));
    assert_eq!(NO_FREE_PORTS, "No free ports found");
}
