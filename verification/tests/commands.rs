use deport::commands::{
    after_route, after_spawn, app_port_accepted, app_port_from_env, custom_port_line,
    fallback_name, get_report, invalid_app_port_message, join_spaced, launch_lines,
    launch_result_lines, list_report, localhost_host, parse_key_val, proxy_launch,
    resolve_base_name, restart_hint, route_line, running_line, spawn_request, start_gate,
    start_notice, Arguments, Commands, ProxyLaunch, RunStep, StartArgs,
};
use deport::ipc::{Request, Response};
use deport::process_man::{ProcessInfo, ProcessState};
use deport::routes::Route;
use deport::styled::Tone;

fn pair(a: &str, b: &str) -> (String, String) {
    (a.to_string(), b.to_string())
}

#[test]
fn default_command_is_stab() {
    assert!(matches!(Commands::default(), Commands::Stab));
    assert!(matches!(Arguments::default().command, Commands::Stab));
}

#[test]
fn start_args_getters() {
    let a = StartArgs::new(Some(443), Some(true));
    assert_eq!(a.get_port(), Some(443));
    assert_eq!(a.get_use_https(), Some(true));
    let b = StartArgs::new(None, None);
    assert_eq!(b.get_port(), None);
    assert_eq!(b.get_use_https(), None);
}

#[test]
fn key_val_single_pair() {
    assert_eq!(parse_key_val("FOO=bar").unwrap(), vec![pair("FOO", "bar")]);
    assert_eq!(parse_key_val("  FOO=bar  ").unwrap(), vec![pair("FOO", "bar")]);
    assert_eq!(parse_key_val("A=b=c").unwrap(), vec![pair("A", "b=c")]);
    assert_eq!(parse_key_val("EMPTY=").unwrap(), vec![pair("EMPTY", "")]);
}

#[test]
fn key_val_one_pair_per_item() {
    assert_eq!(parse_key_val("A=1,B=2").unwrap(), vec![pair("A", "1"), pair("B", "2")]);
    assert_eq!(
        parse_key_val("KEY=1,LONGER=2").unwrap(),
        vec![pair("KEY", "1"), pair("LONGER", "2")]
    );
}

#[test]
fn key_val_missing_equals_is_error() {
    assert_eq!(
        parse_key_val("FOO").unwrap_err(),
        "invalid KEY=value: no `=` found in `FOO`"
    );
    assert_eq!(
        parse_key_val(" A=1,B ").unwrap_err(),
        "invalid KEY=value: no `=` found in ` A=1,B `"
    );
    assert_eq!(
        parse_key_val("").unwrap_err(),
        "invalid KEY=value: no `=` found in ``"
    );
}

#[test]
fn key_val_multibyte() {
    assert_eq!(parse_key_val("é=x,ü=ÿ").unwrap(), vec![pair("é", "x"), pair("ü", "ÿ")]);
}

#[test]
fn restart_hint_forms() {
    assert_eq!(
        restart_hint(1999, 1999),
        "To restart:  deport proxy stop &&  deport proxy start"
    );
    assert_eq!(
        restart_hint(443, 1999),
        "To restart: sudo deport proxy stop --port 443 && sudo deport proxy start --port 443"
    );
    assert_eq!(
        restart_hint(8080, 1999),
        "To restart:  deport proxy stop --port 8080 &&  deport proxy start --port 8080"
    );
}

#[test]
fn start_gate_running_proxy() {
    let refusal = start_gate(None, true, 1999).unwrap_err();
    assert_eq!(refusal.error, "Proxy is already running on port 1999");
    assert_eq!(refusal.lines.len(), 2);
    assert_eq!(refusal.lines[0].tone, Tone::BrightYellow);
    assert_eq!(refusal.lines[1].text, "To restart:  deport proxy stop &&  deport proxy start");
}

#[test]
fn start_gate_privileged_port() {
    let refusal = start_gate(Some(80), false, 1999).unwrap_err();
    assert_eq!(refusal.error, "Port 80 requires sudo.");
    assert_eq!(refusal.lines[0].text, "Error: Port 80 requires sudo.");
    assert_eq!(refusal.lines[0].tone, Tone::BrightRed);
    assert_eq!(refusal.lines.len(), 5);
}

#[test]
fn start_gate_without_port_goes_on() {
    // No port means the default port, which needs no sudo.
    assert!(start_gate(None, false, 1999).is_ok());
    assert!(start_gate(None, true, 1999).is_err());
}

#[test]
fn start_gate_allows_high_port() {
    assert!(start_gate(Some(8443), false, 1999).is_ok());
}

#[test]
fn start_notice_warns_untrusted_ca() {
    let lines = start_notice(false);
    assert_eq!(lines.len(), 4);
    assert_eq!(lines[2].text, "deport trust");
    assert_eq!(lines[3].text, "Starting deported proxy daemon...");
    let lines = start_notice(true);
    assert_eq!(lines.len(), 1);
}

#[test]
fn base_name_from_flag() {
    assert_eq!(resolve_base_name(Some("My App"), None).unwrap(), "my-app");
    assert_eq!(resolve_base_name(Some("!!!"), Some("/home/x/proj")).unwrap_err(), "Invalid name: !!!");
}

#[test]
fn base_name_from_directory() {
    assert_eq!(resolve_base_name(None, Some("/home/me/Cool_Project")).unwrap(), "cool-project");
}

#[test]
fn base_name_random_fallback() {
    let n = resolve_base_name(None, Some("/")).unwrap();
    assert!(n.starts_with("deported-"));
    assert_eq!(n.len(), 16);
    assert!(n["deported-".len()..].chars().all(|c| c.is_ascii_lowercase() || c.is_ascii_digit()));
    let m = resolve_base_name(None, None).unwrap();
    assert!(m.starts_with("deported-"));
}

#[test]
fn fallback_name_lowercases() {
    assert_eq!(fallback_name("AbC12xY"), "deported-abc12xy");
}

#[test]
fn proxy_launch_decisions() {
    assert_eq!(proxy_launch(None, true, 1999), ProxyLaunch::AlreadyRunning);
    assert_eq!(proxy_launch(Some(80), false, 1999), ProxyLaunch::NeedsSudo);
    assert_eq!(proxy_launch(None, false, 1999), ProxyLaunch::Start(StartArgs::new(None, Some(true))));
    assert_eq!(proxy_launch(Some(8080), false, 1999), ProxyLaunch::Start(StartArgs::new(Some(8080), Some(true))));
    assert_eq!(launch_lines(ProxyLaunch::NeedsSudo).len(), 5);
    assert_eq!(launch_lines(ProxyLaunch::AlreadyRunning)[0].text, "Proxy is already running...");
    assert_eq!(launch_result_lines(false)[0].text, "Failed to start proxy!");
    assert_eq!(launch_result_lines(true)[0].text, "Proxy started! Waiting for it to initialize...");
}

#[test]
fn run_lines() {
    assert_eq!(custom_port_line(3000).text, "Using custom port: 3000");
    let args = vec!["dev".to_string(), "--port 4000".to_string()];
    assert_eq!(join_spaced(&args), "dev --port 4000");
    let line = running_line(4000, "npm", &args);
    assert_eq!(line.tone, Tone::BrightCyan);
    assert_eq!(line.text, "Running PORT=4000 HOST=0.0.0.0 \"npm dev --port 4000\"");
    let quoted = running_line(1, "echo", &vec!["\"hi\"".to_string()]);
    assert_eq!(quoted.text, "Running PORT=1 HOST=0.0.0.0 \"echo \\\"hi\\\"\"");
}

#[test]
fn spawn_request_builds_config() {
    let r = spawn_request(
        "web".to_string(),
        "npm".to_string(),
        vec!["start".to_string()],
        3000,
        None,
        Some("/srv".to_string()),
    );
    match r {
        Request::Spawn { config } => {
            assert_eq!(config.name, "web");
            assert_eq!(config.port, Some(3000));
            assert!(config.env.is_empty());
            assert_eq!(config.cwd.as_deref(), Some("/srv"));
        }
        _ => panic!("expected a spawn request"),
    }
}

fn info(name: &str, port: u16, pid: u32) -> ProcessInfo {
    ProcessInfo { pid, name: name.to_string(), port, state: ProcessState::Running, exit_code: None }
}

#[test]
fn after_spawn_requests_route() {
    match after_spawn("web", Response::ProcessInfo(info("web", 3000, 42))) {
        RunStep::Route { lines, request } => {
            assert_eq!(lines[0].text, "Process web now running on port 3000 with PID: 42");
            match request {
                Request::AddRoute { hostname, route } => {
                    assert_eq!(hostname, "web.localhost");
                    assert_eq!(route, Route { pid: 42, port: 3000 });
                }
                _ => panic!("expected a route request"),
            }
        }
        RunStep::Finished { .. } => panic!("expected a route step"),
    }
}

#[test]
fn after_spawn_reports_errors() {
    match after_spawn("web", Response::Error { message: "boom".to_string() }) {
        RunStep::Finished { lines } => assert_eq!(lines[0].text, "Failed to start process: boom"),
        _ => panic!("expected the end"),
    }
    match after_spawn("web", Response::Route(None)) {
        RunStep::Finished { lines } => assert_eq!(lines[0].text, "Unexpected response from daemon"),
        _ => panic!("expected the end"),
    }
}

#[test]
fn after_route_lines() {
    let lines = after_route("web", 3000, &Response::Success { message: "ok!".to_string() });
    assert_eq!(lines[0].text, "ok!");
    assert_eq!(lines[0].tone, Tone::Green);
    assert_eq!(lines[1].text, "Route added for web.localhost -> 3000");
    let lines = after_route("web", 3000, &Response::Route(None));
    assert_eq!(lines[0].text, "Failed to add route!");
}

#[test]
fn list_report_lines() {
    let routes = vec![
        ("a.localhost".to_string(), Route { port: 3000, pid: 0 }),
        ("b.localhost".to_string(), Route { port: 3001, pid: 7 }),
    ];
    let lines = list_report(Some(Response::Routes { routes }), 1999);
    assert_eq!(lines.len(), 3);
    assert_eq!(lines[0][0].text, "Active routes:");
    assert_eq!(lines[1][0].text, "https://a.localhost:3000 -> ");
    assert_eq!(lines[1][1].text, "localhost:1999");
    assert_eq!(lines[1][1].tone, Tone::Green);
    assert_eq!(lines[1][2].text, " (inactive)");
    assert_eq!(lines[2][2].text, " (pid 7)");
    let err = list_report(Some(Response::Error { message: "x".to_string() }), 0);
    assert_eq!(err[0][0].text, "Error fetching routes: x");
    let none = list_report(None, 0);
    assert_eq!(none[0][0].text, "Unexpected response from daemon");
    assert_eq!(route_line("h", Route { port: 1, pid: 2 }, 3).len(), 3);
}

#[test]
fn get_report_outcomes() {
    let ok = get_report("web", Response::Route(Some(Route { port: 3000, pid: 1 }))).unwrap();
    assert_eq!(ok.text, "https://web.localhost:3000");
    let none = get_report("web", Response::Route(None)).unwrap();
    assert_eq!(none.text, "No service found with name: web");
    assert_eq!(none.tone, Tone::Yellow);
    assert_eq!(
        get_report("web", Response::Error { message: "down".to_string() }).unwrap_err(),
        "Error fetching routes: down"
    );
    assert_eq!(
        get_report("web", Response::Routes { routes: vec![] }).unwrap_err(),
        "Unexpected response from daemon"
    );
    assert_eq!(localhost_host("web"), "web.localhost");
}

#[test]
fn app_port_setting() {
    assert!(app_port_accepted(None));
    assert_eq!(app_port_from_env(None), None);
    assert!(app_port_accepted(Some("3000")));
    assert_eq!(app_port_from_env(Some("3000")), Some(3000));
    assert!(app_port_accepted(Some("65533")));
    assert!(!app_port_accepted(Some("65534")));
    assert!(!app_port_accepted(Some("0")));
    assert!(!app_port_accepted(Some("web")));
    assert_eq!(
        invalid_app_port_message("web"),
        "Error: Invalid DEPORT_APP_PORT=web. Must be 1-65535."
    );
}
