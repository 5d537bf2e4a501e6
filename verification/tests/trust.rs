use deport::commands::{missing_ca_report, trust_report};
use deport::styled::Tone;
use deport::trust_ca::{
    detect_linux_distro, mentions_sudo, trust_ca_plan, trust_outcome, trust_plan_linux,
    trust_plan_macos, trust_plan_windows, LinuxDistro, Platform, NEEDS_ROOT, UNSUPPORTED_DISTRO,
};

#[test]
fn debian_runs_correct_command() {
    let plan = trust_plan_linux(LinuxDistro::DebianLike).unwrap();
    assert_eq!(plan.program, "update-ca-certificates");
}

#[test]
fn debian_plan_copies_into_local_store() {
    let plan = trust_plan_linux(LinuxDistro::DebianLike).unwrap();
    assert_eq!(plan.copy_to.as_deref(), Some("/usr/local/share/ca-certificates/deport-ca.crt"));
    assert!(plan.args.is_empty());
    assert_eq!(plan.failure, "update-ca-certificates failed");
}

#[test]
fn arch_plan_runs_trust_extract() {
    let plan = trust_plan_linux(LinuxDistro::ArchLike).unwrap();
    assert_eq!(plan.program, "trust");
    assert_eq!(plan.args, vec!["extract-compat".to_string()]);
    assert_eq!(plan.copy_to.as_deref(), Some("/etc/ca-certificates/trust-source/anchors/deport-ca.crt"));
}

#[test]
fn fedora_plan_runs_update_ca_trust() {
    let plan = trust_plan_linux(LinuxDistro::FedoraLike).unwrap();
    assert_eq!(plan.program, "update-ca-trust");
    assert_eq!(plan.failure, "update-ca-trust failed");
}

#[test]
fn unknown_distro_is_refused() {
    assert_eq!(trust_plan_linux(LinuxDistro::Unknown).err(), Some(UNSUPPORTED_DISTRO));
}

#[test]
fn macos_plan_uses_system_keychain() {
    let plan = trust_plan_macos("/tmp/ca.crt");
    assert_eq!(plan.program, "security");
    assert_eq!(
        plan.args,
        vec!["add-trusted-cert", "-d", "-r", "trustRoot", "-k", "/Library/Keychains/System.keychain", "/tmp/ca.crt"]
            .into_iter()
            .map(String::from)
            .collect::<Vec<_>>()
    );
    assert!(plan.copy_to.is_none());
}

#[test]
fn windows_plan_uses_certutil() {
    let plan = trust_plan_windows("C:\\ca.crt");
    assert_eq!(plan.program, "certutil");
    assert_eq!(plan.args, vec!["-addstore".to_string(), "Root".to_string(), "C:\\ca.crt".to_string()]);
    assert_eq!(plan.failure, "Failed to trust certificate on Windows");
}

#[test]
fn linux_without_root_needs_sudo() {
    let r = trust_ca_plan(Platform::Linux, false, LinuxDistro::DebianLike, "/tmp/ca.crt");
    assert_eq!(r.err(), Some(NEEDS_ROOT));
}

#[test]
fn linux_with_root_follows_distro() {
    let plan = trust_ca_plan(Platform::Linux, true, LinuxDistro::FedoraLike, "/tmp/ca.crt").unwrap();
    assert_eq!(plan.program, "update-ca-trust");
}

#[test]
fn distro_detection_reads_os_release() {
    assert_eq!(detect_linux_distro("NAME=Ubuntu\nID=ubuntu\n"), LinuxDistro::DebianLike);
    assert_eq!(detect_linux_distro("ID=linuxmint"), LinuxDistro::DebianLike);
    assert_eq!(detect_linux_distro("ID=centos"), LinuxDistro::FedoraLike);
    assert_eq!(detect_linux_distro("ID=arch"), LinuxDistro::ArchLike);
    assert_eq!(detect_linux_distro("ID=alpine"), LinuxDistro::Unknown);
    assert_eq!(detect_linux_distro(""), LinuxDistro::Unknown);
}

#[test]
fn failed_command_reports_plan_failure() {
    let plan = trust_plan_linux(LinuxDistro::DebianLike).unwrap();
    assert_eq!(trust_outcome(&plan, true), Ok(()));
    assert_eq!(trust_outcome(&plan, false), Err("update-ca-certificates failed".to_string()));
}

#[test]
fn sudo_hint_detection() {
    assert!(mentions_sudo(NEEDS_ROOT));
    assert!(!mentions_sudo("update-ca-trust failed"));
}

#[test]
fn trust_report_success_and_failures() {
    let (lines, r) = trust_report(Ok(()));
    assert!(r.is_ok());
    assert_eq!(lines.len(), 1);
    assert_eq!(lines[0].tone, Tone::Green);
    assert_eq!(lines[0].text, "Local CA added to system trust store");

    let (lines, r) = trust_report(Err(NEEDS_ROOT.to_string()));
    assert_eq!(r, Err(NEEDS_ROOT.to_string()));
    assert_eq!(lines[0].text, "Failed to add local CA to system trust store");
    assert_eq!(lines[1].tone, Tone::Cyan);
    assert_eq!(lines[1].text, "You might need to run with sudo: sudo deport trust");

    let (lines, _) = trust_report(Err("update-ca-trust failed".to_string()));
    assert_eq!(lines[1].tone, Tone::Red);
    assert_eq!(lines[1].text, "update-ca-trust failed");

    let (line, err) = missing_ca_report();
    assert_eq!(line.text, "Local CA not found");
    assert_eq!(err, "Local CA not found.");
}
