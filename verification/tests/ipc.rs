use deport::commands::StartArgs;
use deport::ipc::{
    bind_precheck, frame, frame_length, reply_for, start_refusal_reply, start_reply, DaemonState,
    Effect, Outcome, ReplyKind, Request, Response, SocketProbe,
};
use deport::process_man::{ProcessConfig, ProcessInfo, ProcessState};
use deport::routes::Route;
use deport::styled::Tone;

fn ok_message(e: Effect) -> String {
    match e {
        Effect::Reply(Response::Success { message }) => message,
        other => panic!("unexpected effect {:?}", other),
    }
}

#[test]
fn add_then_get_route() {
    let mut state = DaemonState::new();
    let added = Request::AddRoute { hostname: "web.localhost".to_string(), route: Route { port: 3000, pid: 9 } }
        .process(&mut state);
    assert_eq!(ok_message(added), "Route web.localhost added successfully!");
    match (Request::GetRoute { hostname: "web.localhost".to_string() }).process(&mut state) {
        Effect::Reply(Response::Route(r)) => assert_eq!(r, Some(Route { port: 3000, pid: 9 })),
        other => panic!("unexpected effect {:?}", other),
    }
}

#[test]
fn delete_route_then_get_is_empty() {
    let mut state = DaemonState::new();
    let _ = Request::AddRoute { hostname: "a.localhost".to_string(), route: Route { port: 1, pid: 1 } }
        .process(&mut state);
    let deleted = (Request::DeleteRoute { hostname: "a.localhost".to_string() }).process(&mut state);
    assert_eq!(ok_message(deleted), "Route a.localhost deleted successfully!");
    match (Request::GetRoute { hostname: "a.localhost".to_string() }).process(&mut state) {
        Effect::Reply(Response::Route(r)) => assert_eq!(r, None),
        other => panic!("unexpected effect {:?}", other),
    }
    match Request::ListRoutes.process(&mut state) {
        Effect::Reply(Response::Routes { routes }) => assert!(routes.is_empty()),
        other => panic!("unexpected effect {:?}", other),
    }
}

#[test]
fn set_proxy_port_is_kept() {
    let mut state = DaemonState::new();
    assert_eq!(state.proxy_port, 0);
    let e = Request::SetProxyPort(8443).process(&mut state);
    assert_eq!(ok_message(e), "Proxy port set to 8443 successfully!");
    assert_eq!(state.proxy_port, 8443);
}

#[test]
fn process_work_is_handed_on() {
    let mut state = DaemonState::new();
    let config = ProcessConfig {
        name: "web".to_string(),
        command: "npm".to_string(),
        args: vec![],
        port: None,
        env: vec![],
        cwd: None,
    };
    assert!(matches!(Request::Spawn { config }.process(&mut state), Effect::Spawn(c) if c.name == "web"));
    assert!(matches!(Request::List.process(&mut state), Effect::ListProcesses));
    assert!(matches!((Request::Stop { name: "web".to_string() }).process(&mut state), Effect::Stop(n) if n == "web"));
    assert!(matches!(Request::KillDaemon.process(&mut state), Effect::KillDaemon));
    let args = StartArgs::new(Some(8443), None);
    assert!(matches!(Request::StartProxy(args).process(&mut state), Effect::StartProxy(a) if a == args));
}

#[test]
fn replies_for_finished_work() {
    let info = ProcessInfo { pid: 3, name: "w".to_string(), port: 5, state: ProcessState::Running, exit_code: None };
    assert!(matches!(reply_for(Outcome::Spawned(Ok(info))), Response::ProcessInfo(i) if i.pid == 3));
    assert!(matches!(reply_for(Outcome::Spawned(Err("no".to_string()))), Response::Error { message } if message == "no"));
    assert!(matches!(reply_for(Outcome::Stopped(Ok(()))), Response::Success { message } if message == "Process stopped successfully"));
    assert!(matches!(reply_for(Outcome::Stopped(Err("Process not found!".to_string()))), Response::Error { message } if message == "Process not found!"));
    assert!(matches!(reply_for(Outcome::DaemonKilled), Response::Success { message } if message == "Daemon killed successfully"));
    assert!(matches!(reply_for(Outcome::Listed(vec![])), Response::List { processes } if processes.is_empty()));
}

fn text(parts: &[deport::styled::Styled]) -> String {
    parts.iter().map(|p| p.text.as_str()).collect()
}

#[test]
fn start_request_when_running() {
    let r = start_refusal_reply(Some(8443), true, 1999).unwrap();
    assert_eq!(r.kind, ReplyKind::Success);
    assert_eq!(
        text(&r.parts),
        "Proxy is already running on port 8443\nTo restart:  deport proxy stop --port 8443 &&  deport proxy start --port 8443\n"
    );
    assert_eq!(r.parts[0].tone, Tone::Yellow);
}

#[test]
fn start_request_privileged_port() {
    let r = start_refusal_reply(Some(443), false, 1999).unwrap();
    assert_eq!(r.kind, ReplyKind::Error);
    assert_eq!(
        text(&r.parts),
        "\nError: Port 443 requires sudo.\nEither run with sudo:\ne.g.: sudo deport proxy start -p 443 --https\n..or use default port (doesn't require sudo)\ne.g.: deport proxy start\n"
    );
    assert_eq!(r.parts[7].tone, Tone::Blink);
    assert!(start_refusal_reply(None, false, 1999).is_none());
    assert!(start_refusal_reply(Some(8443), false, 1999).is_none());
}

#[test]
fn start_request_outcomes() {
    let r = start_reply(true, Ok(()));
    assert_eq!(r.kind, ReplyKind::ProxyStarted);
    assert_eq!(text(&r.parts), "Starting deported proxy daemon...\n");
    let r = start_reply(false, Ok(()));
    assert_eq!(
        text(&r.parts),
        "CA not installed in system trust store, so browsers may show certificate errors/warnings.\nAdd it by running:\ndeport trust\nStarting deported proxy daemon...\n"
    );
    let r = start_reply(false, Err("pid file locked".to_string()));
    assert_eq!(r.kind, ReplyKind::Error);
    assert_eq!(text(&r.parts), "Failed to start daemon: pid file locked");
}

#[test]
fn socket_precheck() {
    assert_eq!(bind_precheck(SocketProbe::Answered), Err("IPC socket already in use"));
    assert_eq!(
        bind_precheck(SocketProbe::PermissionDenied),
        Err("IPC socket already in use (owned by another user)")
    );
    assert_eq!(bind_precheck(SocketProbe::Nothing), Ok(()));
}

#[test]
fn frames_are_big_endian_length_prefixed() {
    let f = frame(b"hello");
    assert_eq!(f, vec![0, 0, 0, 5, b'h', b'e', b'l', b'l', b'o']);
    assert_eq!(frame_length(&f), 5);
    let big = vec![7u8; 0x0102];
    let f = frame(&big);
    assert_eq!(&f[..4], &[0, 0, 1, 2]);
    assert_eq!(frame_length(&f[..4]), 0x0102);
    assert_eq!(frame(&[]), vec![0, 0, 0, 0]);
}

#[test]
fn frame_roundtrip() {
    let msg: Vec<u8> = (0..=255u8).collect();
    let f = frame(&msg);
    let n = frame_length(&f) as usize;
    assert_eq!(&f[4..4 + n], msg.as_slice());
    assert_eq!(frame_length(&[0x12, 0x34, 0x56, 0x78]), 0x1234_5678);
}
