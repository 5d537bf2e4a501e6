//! Adding the local CA to the system trust store: which Linux family a
//! system belongs to, and which file copy and command each platform needs.
use crate::text::{contains_seq, owned, push_str, str_contains};
use vstd::prelude::*;

verus! {

/// Linux distribution families with different trust-store tooling.
#[derive(Debug, Clone, Copy, PartialEq, Eq, Structural)]
pub enum LinuxDistro {
    DebianLike,
    FedoraLike,
    ArchLike,
    Unknown,
}

/// The family an `/etc/os-release` text names.
pub open spec fn distro_of(content: Seq<char>) -> LinuxDistro {
    if contains_seq(content, "ID=ubuntu"@) || contains_seq(content, "ID=debian"@) || contains_seq(
        content,
        "ID=linuxmint"@,
    ) {
        LinuxDistro::DebianLike
    } else if contains_seq(content, "ID=fedora"@) || contains_seq(content, "ID=rhel"@)
        || contains_seq(content, "ID=centos"@) {
        LinuxDistro::FedoraLike
    } else if contains_seq(content, "ID=arch"@) {
        LinuxDistro::ArchLike
    } else {
        LinuxDistro::Unknown
    }
}

/// Reads the distribution family from the text of `/etc/os-release`.
pub fn detect_linux_distro(os_release: &str) -> (d: LinuxDistro)
    ensures
        d == distro_of(os_release@),
{
    if str_contains(os_release, "ID=ubuntu") || str_contains(os_release, "ID=debian")
        || str_contains(os_release, "ID=linuxmint") {
        LinuxDistro::DebianLike
    } else if str_contains(os_release, "ID=fedora") || str_contains(os_release, "ID=rhel")
        || str_contains(os_release, "ID=centos") {
        LinuxDistro::FedoraLike
    } else if str_contains(os_release, "ID=arch") {
        LinuxDistro::ArchLike
    } else {
        LinuxDistro::Unknown
    }
}

/// The operating system the CA is installed on.
#[derive(Debug, Clone, Copy, PartialEq, Eq, Structural)]
pub enum Platform {
    MacOs,
    Windows,
    Linux,
}

/// How to install the CA: optionally copy it to a file, then run a command;
/// a failing command is reported with `failure`.
pub struct TrustPlan {
    pub copy_to: Option<String>,
    pub program: String,
    pub args: Vec<String>,
    pub failure: String,
}

/// The abstract content of a plan.
pub open spec fn plan_view(p: TrustPlan) -> (
    Option<Seq<char>>,
    Seq<char>,
    Seq<Seq<char>>,
    Seq<char>,
) {
    (
        match p.copy_to {
            Some(c) => Some(c@),
            None => None,
        },
        p.program@,
        p.args@.map_values(|a: String| a@),
        p.failure@,
    )
}

/// The plan for each Linux family; `None` for an unknown one.
pub open spec fn linux_plan_spec(d: LinuxDistro) -> Option<
    (Option<Seq<char>>, Seq<char>, Seq<Seq<char>>, Seq<char>),
> {
    match d {
        LinuxDistro::DebianLike => Some(
            (
                Some("/usr/local/share/ca-certificates/deport-ca.crt"@),
                "update-ca-certificates"@,
                Seq::empty(),
                "update-ca-certificates failed"@,
            ),
        ),
        LinuxDistro::FedoraLike => Some(
            (
                Some("/etc/pki/ca-trust/source/anchors/deport-ca.crt"@),
                "update-ca-trust"@,
                Seq::empty(),
                "update-ca-trust failed"@,
            ),
        ),
        LinuxDistro::ArchLike => Some(
            (
                Some("/etc/ca-certificates/trust-source/anchors/deport-ca.crt"@),
                "trust"@,
                seq!["extract-compat"@],
                "trust extract-compat failed"@,
            ),
        ),
        LinuxDistro::Unknown => None,
    }
}

/// The plan for macOS: add the certificate to the system keychain.
pub open spec fn macos_plan_spec(ca_path: Seq<char>) -> (
    Option<Seq<char>>,
    Seq<char>,
    Seq<Seq<char>>,
    Seq<char>,
) {
    (
        None,
        "security"@,
        seq![
            "add-trusted-cert"@,
            "-d"@,
            "-r"@,
            "trustRoot"@,
            "-k"@,
            "/Library/Keychains/System.keychain"@,
            ca_path,
        ],
        "Failed to trust certificate on macOS"@,
    )
}

/// The plan for Windows: add the certificate to the Root store.
pub open spec fn windows_plan_spec(ca_path: Seq<char>) -> (
    Option<Seq<char>>,
    Seq<char>,
    Seq<Seq<char>>,
    Seq<char>,
) {
    (None, "certutil"@, seq!["-addstore"@, "Root"@, ca_path], "Failed to trust certificate on Windows"@)
}

/// Message when installing on Linux without root rights.
pub const NEEDS_ROOT: &'static str = "Run with sudo to install system certificate";

/// Message for an unknown Linux family.
pub const UNSUPPORTED_DISTRO: &'static str = "Unsupported Linux distro. Install CA manually.";

fn plan(copy_to: Option<&str>, program: &str, args: &[&str], failure: &str) -> (p: TrustPlan)
    ensures
        p.copy_to matches Some(c) ==> copy_to matches Some(c0) && c@ == c0@,
        p.copy_to is None <==> copy_to is None,
        p.program@ == program@,
        p.args@.len() == args@.len(),
        forall|i: int| 0 <= i < args@.len() ==> #[trigger] p.args@[i]@ == args@[i]@,
        p.failure@ == failure@,
{
    let mut v: Vec<String> = Vec::new();
    let mut i: usize = 0;
    while i < args.len()
        invariant
            i <= args@.len(),
            v@.len() == i,
            forall|k: int| 0 <= k < i ==> #[trigger] v@[k]@ == args@[k]@,
        decreases args@.len() - i,
    {
        v.push(owned(args[i]));
        i = i + 1;
    }
    TrustPlan {
        copy_to: match copy_to {
            Some(c) => Some(owned(c)),
            None => None,
        },
        program: owned(program),
        args: v,
        failure: owned(failure),
    }
}

/// The Linux plan for a distribution family; an error for unknown ones.
pub fn trust_plan_linux(d: LinuxDistro) -> (r: Result<TrustPlan, &'static str>)
    ensures
        match r {
            Ok(p) => linux_plan_spec(d) == Some(plan_view(p)),
            Err(e) => linux_plan_spec(d) is None && e@ == UNSUPPORTED_DISTRO@,
        },
{
    match d {
        LinuxDistro::DebianLike => {
            let p = plan(
                Some("/usr/local/share/ca-certificates/deport-ca.crt"),
                "update-ca-certificates",
                &[],
                "update-ca-certificates failed",
            );
            assert(plan_view(p).2 =~= Seq::<Seq<char>>::empty());
            Ok(p)
        },
        LinuxDistro::FedoraLike => {
            let p = plan(
                Some("/etc/pki/ca-trust/source/anchors/deport-ca.crt"),
                "update-ca-trust",
                &[],
                "update-ca-trust failed",
            );
            assert(plan_view(p).2 =~= Seq::<Seq<char>>::empty());
            Ok(p)
        },
        LinuxDistro::ArchLike => {
            let p = plan(
                Some("/etc/ca-certificates/trust-source/anchors/deport-ca.crt"),
                "trust",
                &["extract-compat"],
                "trust extract-compat failed",
            );
            assert(plan_view(p).2 =~= seq!["extract-compat"@]);
            Ok(p)
        },
        LinuxDistro::Unknown => Err(UNSUPPORTED_DISTRO),
    }
}

/// The macOS plan for the CA at `ca_path`.
pub fn trust_plan_macos(ca_path: &str) -> (p: TrustPlan)
    ensures
        plan_view(p) == macos_plan_spec(ca_path@),
{
    let p = plan(
        None,
        "security",
        &[
            "add-trusted-cert",
            "-d",
            "-r",
            "trustRoot",
            "-k",
            "/Library/Keychains/System.keychain",
            ca_path,
        ],
        "Failed to trust certificate on macOS",
    );
    assert(plan_view(p).2 =~= macos_plan_spec(ca_path@).2);
    p
}

/// The Windows plan for the CA at `ca_path`.
pub fn trust_plan_windows(ca_path: &str) -> (p: TrustPlan)
    ensures
        plan_view(p) == windows_plan_spec(ca_path@),
{
    let p = plan(None, "certutil", &["-addstore", "Root", ca_path], "Failed to trust certificate on Windows");
    assert(plan_view(p).2 =~= windows_plan_spec(ca_path@).2);
    p
}

/// The plan `trust_ca` follows: macOS and Windows always have one; Linux
/// needs root rights and a known distribution family.
pub fn trust_ca_plan(platform: Platform, is_root: bool, distro: LinuxDistro, ca_path: &str) -> (r:
    Result<TrustPlan, &'static str>)
    ensures
        match platform {
            Platform::MacOs => r matches Ok(p) && plan_view(p) == macos_plan_spec(ca_path@),
            Platform::Windows => r matches Ok(p) && plan_view(p) == windows_plan_spec(ca_path@),
            Platform::Linux => if !is_root {
                r matches Err(e) && e@ == NEEDS_ROOT@
            } else {
                match r {
                    Ok(p) => linux_plan_spec(distro) == Some(plan_view(p)),
                    Err(e) => linux_plan_spec(distro) is None && e@ == UNSUPPORTED_DISTRO@,
                }
            },
        },
{
    match platform {
        Platform::MacOs => Ok(trust_plan_macos(ca_path)),
        Platform::Windows => Ok(trust_plan_windows(ca_path)),
        Platform::Linux => {
            if !is_root {
                return Err(NEEDS_ROOT);
            }
            trust_plan_linux(distro)
        },
    }
}

/// The outcome of running a plan's command: success, or the plan's failure
/// message.
pub fn trust_outcome(plan: &TrustPlan, success: bool) -> (r: Result<(), String>)
    ensures
        success <==> r is Ok,
        r matches Err(m) ==> m@ == plan.failure@,
{
    if success {
        Ok(())
    } else {
        let mut m = String::new();
        push_str(&mut m, plan.failure.as_str());
        Err(m)
    }
}

/// Whether a trust failure message is about missing root rights, in which
/// case the user is told to rerun with sudo.
pub fn mentions_sudo(message: &str) -> (b: bool)
    ensures
        b == contains_seq(message@, "sudo"@),
{
    str_contains(message, "sudo")
}

/// The os-release IDs of the Debian family.
pub open spec fn names_debian(c: Seq<char>) -> bool {
    contains_seq(c, "ID=ubuntu"@) || contains_seq(c, "ID=debian"@) || contains_seq(c, "ID=linuxmint"@)
}

/// The os-release IDs of the Fedora family.
pub open spec fn names_fedora(c: Seq<char>) -> bool {
    contains_seq(c, "ID=fedora"@) || contains_seq(c, "ID=rhel"@) || contains_seq(c, "ID=centos"@)
}

/// Which family an os-release text is put in: any of `ID=ubuntu`,
/// `ID=debian`, `ID=linuxmint` makes it Debian-like; otherwise any of
/// `ID=fedora`, `ID=rhel`, `ID=centos` makes it Fedora-like; otherwise
/// `ID=arch` makes it Arch-like; a text naming none of these is unknown.
pub proof fn law_distro_families(c: Seq<char>)
    ensures
        names_debian(c) ==> distro_of(c) == LinuxDistro::DebianLike,
        !names_debian(c) && names_fedora(c) ==> distro_of(c) == LinuxDistro::FedoraLike,
        !names_debian(c) && !names_fedora(c) && contains_seq(c, "ID=arch"@) ==> distro_of(c)
            == LinuxDistro::ArchLike,
        !names_debian(c) && !names_fedora(c) && !contains_seq(c, "ID=arch"@) ==> distro_of(c)
            == LinuxDistro::Unknown,
        distro_of(c) == LinuxDistro::DebianLike ==> names_debian(c),
        distro_of(c) == LinuxDistro::FedoraLike ==> names_fedora(c),
        distro_of(c) == LinuxDistro::ArchLike ==> contains_seq(c, "ID=arch"@),
{
}

/// A Debian-family system installs the CA by copying it into the local
/// certificate directory and running `update-ca-certificates`.
pub proof fn law_debian_plan(c: Seq<char>)
    requires
        names_debian(c),
    ensures
        linux_plan_spec(distro_of(c)) == Some(
            (
                Some("/usr/local/share/ca-certificates/deport-ca.crt"@),
                "update-ca-certificates"@,
                Seq::<Seq<char>>::empty(),
                "update-ca-certificates failed"@,
            ),
        ),
{
}

} // verus!
