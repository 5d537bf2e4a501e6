use deport::cli_utils::{
    confirm_reply, contains_arg, format_url, inject_framework_flags, normalize_labels,
    path_file_name, reply_answer, sanitize_rfc1035, split_chars, trim_line, FlagsError,
};

fn strings(v: &[&str]) -> Vec<String> {
    v.iter().map(|s| s.to_string()).collect()
}

#[test]
fn vite_gets_port_strict_and_host() {
    let mut args = strings(&["dev"]);
    inject_framework_flags("/usr/bin/vite", &mut args, 4000).unwrap();
    assert_eq!(args, strings(&["dev", "--port 4000", "--strictPort", "--host 0.0.0.0"]));
}

#[test]
fn expo_binds_localhost() {
    let mut args = vec![];
    inject_framework_flags("expo", &mut args, 8081).unwrap();
    assert_eq!(args, strings(&["--port 8081", "--host localhost"]));
}

#[test]
fn existing_flags_are_kept() {
    let mut args = strings(&["--port", "5000", "--host", "x"]);
    inject_framework_flags("ng", &mut args, 4000).unwrap();
    assert_eq!(args, strings(&["--port", "5000", "--host", "x"]));
}

#[test]
fn injected_flags_are_injected_again() {
    // The check looks for a bare `--port` argument, which the injected
    // `--port N` argument is not.
    let mut args = vec![];
    inject_framework_flags("astro", &mut args, 3000).unwrap();
    inject_framework_flags("astro", &mut args, 3000).unwrap();
    assert_eq!(args, strings(&["--port 3000", "--host 0.0.0.0", "--port 3000", "--host 0.0.0.0"]));
}

#[test]
fn other_commands_are_untouched() {
    let mut args = strings(&["run", "dev"]);
    inject_framework_flags("npm", &mut args, 3000).unwrap();
    assert_eq!(args, strings(&["run", "dev"]));
}

#[test]
fn command_without_file_name_is_error() {
    let mut args = strings(&["a"]);
    let e = inject_framework_flags("/", &mut args, 3000).unwrap_err();
    assert_eq!(e, FlagsError::InvalidPath);
    assert_eq!(e.message(), "Invalid path to command provided!");
    assert_eq!(args, strings(&["a"]));
    assert!(inject_framework_flags("..", &mut args, 3000).is_err());
}

#[test]
fn contains_arg_is_exact() {
    let args = strings(&["--port 3000"]);
    assert!(!contains_arg(&args, "--port"));
    assert!(contains_arg(&args, "--port 3000"));
}

#[test]
fn urls() {
    assert_eq!(format_url("web.localhost", 1999, true), "https://web.localhost:1999");
    assert_eq!(format_url("web.localhost", 80, false), "http://web.localhost:80");
}

#[test]
fn file_names() {
    assert_eq!(path_file_name("/usr/bin/vite").as_deref(), Some("vite"));
    assert_eq!(path_file_name("vite").as_deref(), Some("vite"));
    assert_eq!(path_file_name("/usr/bin/").as_deref(), Some("bin"));
    assert_eq!(path_file_name("a/./").as_deref(), Some("a"));
    assert_eq!(path_file_name("/"), None);
    assert_eq!(path_file_name(""), None);
    assert_eq!(path_file_name("x/.."), None);
}

#[test]
fn sanitizing_hostnames() {
    assert_eq!(sanitize_rfc1035("My_App"), "my-app");
    assert_eq!(sanitize_rfc1035("--a--.b"), "a.b");
    assert_eq!(sanitize_rfc1035("Ünïcode"), "n-code");
    assert_eq!(sanitize_rfc1035("a b/c:d"), "a-b-c-d");
    assert_eq!(sanitize_rfc1035("!!!"), "");
    assert_eq!(sanitize_rfc1035("api.my-app.localhost"), "api.my-app.localhost");
    let long = "x".repeat(70);
    assert_eq!(sanitize_rfc1035(&long).len(), 63);
    let many = vec!["y".repeat(60); 6].join(".");
    assert_eq!(sanitize_rfc1035(&many).len(), 255);
    let odd = sanitize_rfc1035("Ärger_Über.Straße");
    assert!(odd.chars().all(|c| c.is_ascii_lowercase() || c.is_ascii_digit() || c == '.' || c == '-'));
}

#[test]
fn label_normalization() {
    assert_eq!(normalize_labels("-a-.-b-"), "a.b");
    assert_eq!(normalize_labels(""), "");
    assert_eq!(normalize_labels(".."), "..");
}

#[test]
fn splitting() {
    let parts = split_chars(&['a', ',', ',', 'b'], ',');
    assert_eq!(parts, vec![vec!['a'], vec![], vec!['b']]);
    assert_eq!(split_chars(&[], ','), vec![Vec::<char>::new()]);
}

#[test]
fn yes_no_replies() {
    assert_eq!(confirm_reply("  YES \n"), Some(true));
    assert_eq!(confirm_reply("y"), Some(true));
    assert_eq!(confirm_reply("\n"), Some(false));
    assert_eq!(confirm_reply("No"), Some(false));
    assert_eq!(confirm_reply("maybe"), None);
    assert_eq!(reply_answer("n"), Some(false));
    assert_eq!(trim_line("  hello world \n"), "hello world");
}
