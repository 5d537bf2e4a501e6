//! The command line of `deport`: its commands and their arguments, and what
//! the commands decide and print around their calls to the daemon.
use crate::styled::{Styled, Tone, styled, styled_str, styled_view};
use crate::cli_utils::{
    file_name, format_url, join_with, lemma_last_index_at, url_of, path_file_name, piece_views, sanitize_rfc1035, sanitized, split_chars,
    split_on, views,
};
use crate::ipc::{Request, Response};
use crate::process_man::ProcessConfig;
use crate::proxy::opt_view;
use crate::routes::Route;
use crate::trust_ca::mentions_sudo;
use crate::text::{
    ascii_lower, chars_of, contains_seq, copy_string, debug_quoted, debug_str, decimal, find_char,
    first_index_of, is_white_space, lowercased, owned, parse_u16, parse_u16_spec, push_char,
    push_str, string_of_range, to_lowercase, trim_chars, trimmed, write_decimal,
};
use rand::{RngExt as _, SeedableRng as _};
use vstd::utf8::is_ascii_chars;
use vstd::prelude::*;

verus! {

/// Arguments of `deport get`: the service name to look up.
#[derive(Debug, Clone)]
pub struct GetArgs {
    pub name: String,
}

/// The parsed command line.
#[derive(Debug)]
pub struct Arguments {
    pub command: Commands,
}

/// The commands of `deport`.
#[derive(Debug)]
pub enum Commands {
    /// Run a dev server behind the proxy.
    Run(RunArgs),
    /// Sync routes into the hosts file.
    Hosts,
    /// Add the local CA to the system trust store.
    Trust,
    /// Start or stop the proxy.
    Proxy(ProxyCommands),
    /// Show the active routes.
    List,
    /// Print the URL of one service.
    Get(GetArgs),
    /// No command given.
    Stab,
}

impl Default for Commands {
    fn default() -> (c: Self)
        ensures
            c is Stab,
    {
        Commands::Stab
    }
}

impl Default for Arguments {
    fn default() -> (a: Self)
        ensures
            a.command is Stab,
    {
        Arguments { command: Commands::Stab }
    }
}

/// The `proxy` subcommands.
#[derive(Debug)]
pub enum ProxyCommands {
    /// Start the proxy.
    Start(StartArgs),
    /// Stop the proxy.
    Stop(StopArgs),
}

/// Arguments of `deport proxy start`.
#[derive(Debug, Clone, Copy, PartialEq, Eq, Structural)]
pub struct StartArgs {
    port: Option<u16>,
    use_https: Option<bool>,
}

impl StartArgs {
    /// Start arguments for a port and an HTTPS choice (each optional).
    pub fn new(port: Option<u16>, use_https: Option<bool>) -> (s: Self)
        ensures
            s.spec_port() == port,
            s.spec_use_https() == use_https,
    {
        StartArgs { port, use_https }
    }

    /// The requested proxy port.
    pub closed spec fn spec_port(self) -> Option<u16> {
        self.port
    }

    /// The requested HTTPS choice.
    pub closed spec fn spec_use_https(self) -> Option<bool> {
        self.use_https
    }

    /// The requested proxy port.
    pub fn get_port(&self) -> (p: Option<u16>)
        ensures
            p == self.spec_port(),
    {
        self.port
    }

    /// The requested HTTPS choice.
    pub fn get_use_https(&self) -> (h: Option<bool>)
        ensures
            h == self.spec_use_https(),
    {
        self.use_https
    }
}

/// Arguments of `deport proxy stop`.
#[derive(Debug, Clone, Copy, PartialEq, Eq, Structural)]
pub struct StopArgs {
    pub force: bool,
}

/// Arguments of `deport run`.
#[derive(Debug, Clone)]
pub struct RunArgs {
    /// The command of the dev server.
    pub cmd: String,
    /// Its arguments.
    pub args: Vec<String>,
    /// The subdomain to use instead of the inferred one.
    pub name: Option<String>,
    pub force: bool,
    /// A fixed port for the dev server.
    pub port: Option<u16>,
    /// The port of the proxy.
    pub proxy_port: Option<u16>,
    /// Extra environment pairs for the dev server.
    pub env: Option<Vec<(String, String)>>,
}

// ---------------------------------------------------------------------
// Starting the proxy
// ---------------------------------------------------------------------

/// The command lines that restart a proxy listening on `port`: with `sudo`
/// for a privileged port, and with `--port` when it is not the default.
pub open spec fn restart_hint_spec(port: u16, default_port: u16) -> Seq<char> {
    let sudo = if port < 1024 {
        "sudo"@
    } else {
        ""@
    };
    let flag = if port != default_port {
        " --port "@ + decimal(port as nat)
    } else {
        ""@
    };
    "To restart: "@ + sudo + " deport proxy stop"@ + flag + " && "@ + sudo + " deport proxy start"@
        + flag
}

/// The restart hint uses `sudo` exactly for a privileged port, and names
/// the port with `--port` (at the end of the hint) exactly when it is not
/// the default one.
pub proof fn law_restart_hint(port: u16, default_port: u16)
    ensures
        port < 1024 ==> restart_hint_spec(port, default_port).subrange(12, 17) == "sudo "@,
        port >= 1024 ==> restart_hint_spec(port, default_port).subrange(11, 13) == "  "@,
        port != default_port ==> restart_hint_spec(port, default_port).skip(
            restart_hint_spec(port, default_port).len() - (8 + decimal(port as nat).len()),
        ) == " --port "@ + decimal(port as nat),
        port == default_port ==> restart_hint_spec(port, default_port).skip(
            restart_hint_spec(port, default_port).len() - 6,
        ) == " start"@,
{
    reveal_strlit("To restart: ");
    reveal_strlit("sudo");
    reveal_strlit("");
    reveal_strlit(" deport proxy stop");
    reveal_strlit(" && ");
    reveal_strlit(" deport proxy start");
    reveal_strlit(" --port ");
    reveal_strlit("sudo ");
    reveal_strlit("  ");
    reveal_strlit(" start");
    let h = restart_hint_spec(port, default_port);
    let sudo = if port < 1024 {
        "sudo"@
    } else {
        ""@
    };
    let flag = if port != default_port {
        " --port "@ + decimal(port as nat)
    } else {
        ""@
    };
    let front = "To restart: "@ + sudo + " deport proxy stop"@ + flag + " && "@ + sudo
        + " deport proxy start"@;
    assert(h == front + flag);
    if port < 1024 {
        assert(h.subrange(12, 17) =~= "sudo "@);
    } else {
        assert(h.subrange(11, 13) =~= "  "@);
    }
    if port != default_port {
        assert(h.skip(h.len() - flag.len()) =~= flag);
    } else {
        assert(h =~= front);
        assert(h.skip(h.len() - 6) =~= " start"@);
    }
}

/// The restart hint shown when the proxy already runs on `port`.
pub fn restart_hint(port: u16, default_port: u16) -> (s: String)
    ensures
        s@ == restart_hint_spec(port, default_port),
{
    let sudo = if port < 1024 {
        "sudo"
    } else {
        ""
    };
    let mut flag = String::new();
    if port != default_port {
        push_str(&mut flag, " --port ");
        write_decimal(&mut flag, port as u64);
    }
    proof {
        reveal_strlit("");
    }
    let mut s = owned("To restart: ");
    push_str(&mut s, sudo);
    push_str(&mut s, " deport proxy stop");
    push_str(&mut s, flag.as_str());
    push_str(&mut s, " && ");
    push_str(&mut s, sudo);
    push_str(&mut s, " deport proxy start");
    push_str(&mut s, flag.as_str());
    assert(s@ =~= restart_hint_spec(port, default_port));
    s
}

/// `"Proxy is already running on port <port>"`.
pub open spec fn already_running_text(port: u16) -> Seq<char> {
    "Proxy is already running on port "@ + decimal(port as nat)
}

/// `"Port <port> requires sudo."`.
pub open spec fn requires_sudo_text(port: u16) -> Seq<char> {
    "Port "@ + decimal(port as nat) + " requires sudo."@
}

fn text_with_port(prefix: &str, port: u16, suffix: &str) -> (s: String)
    ensures
        s@ == prefix@ + decimal(port as nat) + suffix@,
{
    let mut s = owned(prefix);
    write_decimal(&mut s, port as u64);
    push_str(&mut s, suffix);
    s
}

/// Why `deport proxy start` refuses to start: what it prints and the error
/// it ends with.
pub struct StartRefusal {
    pub lines: Vec<Styled>,
    pub error: String,
}

/// What `deport proxy start` prints and fails with before any other work,
/// given whether a proxy already answers: a running proxy is reported with
/// a restart hint; otherwise an explicitly requested port below 1024 is
/// refused as needing sudo. Without a requested port the proxy uses the
/// default port, which needs no sudo.
pub open spec fn start_refusal_spec(port: Option<u16>, running: bool, default_port: u16) -> Option<
    (Seq<(Tone, Seq<char>)>, Seq<char>),
> {
    if running {
        let p = match port {
            Some(p) => p,
            None => default_port,
        };
        Some(
            (
                seq![
                    (Tone::BrightYellow, already_running_text(p)),
                    (Tone::Blue, restart_hint_spec(p, default_port)),
                ],
                already_running_text(p),
            ),
        )
    } else {
        match port {
            Some(shown) => if shown < 1024 {
                Some(
                    (
                        seq![
                            (Tone::BrightRed, "Error: "@ + requires_sudo_text(shown)),
                            (Tone::Plain, "Either run with sudo:"@),
                            (Tone::Plain, "e.g.: sudo deport proxy start -p 443 --https"@),
                            (Tone::Plain, "..or use default port (doesn't require sudo)"@),
                            (Tone::Plain, "e.g.: deport proxy start"@),
                        ],
                        requires_sudo_text(shown),
                    ),
                )
            } else {
                None
            },
            None => None,
        }
    }
}

/// `deport proxy start` refuses before any work exactly when a proxy
/// already runs (failing with "already running" on the requested port, or
/// the default one) or, with none running, when an explicit port below 1024
/// is requested. No port, or a port of 1024 or more, goes on.
pub proof fn law_start_gate(port: Option<u16>, running: bool, default_port: u16)
    ensures
        running ==> (start_refusal_spec(port, running, default_port) is Some && start_refusal_spec(
            port,
            running,
            default_port,
        ).unwrap().1 == "Proxy is already running on port "@ + decimal(
            (if port is Some {
                port.unwrap()
            } else {
                default_port
            }) as nat,
        )),
        !running ==> (start_refusal_spec(port, running, default_port) is Some <==> (port is Some
            && port.unwrap() < 1024)),
        !running && port is Some && port.unwrap() < 1024 ==> start_refusal_spec(
            port,
            running,
            default_port,
        ).unwrap().1 == "Port "@ + decimal(port.unwrap() as nat) + " requires sudo."@,
{
}

/// The first decision of `deport proxy start`: `Ok` to go on, or the lines
/// to print and the error to fail with, as `start_refusal_spec` says.
pub fn start_gate(port: Option<u16>, running: bool, default_port: u16) -> (r: Result<
    (),
    StartRefusal,
>)
    ensures
        match r {
            Ok(()) => start_refusal_spec(port, running, default_port) is None,
            Err(refusal) => start_refusal_spec(port, running, default_port) == Some(
                (styled_view(refusal.lines@), refusal.error@),
            ),
        },
{
    if running {
        let p = match port {
            Some(p) => p,
            None => default_port,
        };
        let mut lines: Vec<Styled> = Vec::new();
        lines.push(styled(Tone::BrightYellow, text_with_port("Proxy is already running on port ", p, "")));
        lines.push(styled(Tone::Blue, restart_hint(p, default_port)));
        let error = text_with_port("Proxy is already running on port ", p, "");
        proof {
            reveal_strlit("");
            assert(error@ =~= already_running_text(p));
        }
        assert(styled_view(lines@) =~= seq![
            (Tone::BrightYellow, already_running_text(p)),
            (Tone::Blue, restart_hint_spec(p, default_port)),
        ]);
        return Err(StartRefusal { lines, error });
    }
    let shown: u16 = match port {
        Some(p) => p,
        None => return Ok(()),
    };
    if shown < 1024 {
        let mut lines: Vec<Styled> = Vec::new();
        lines.push(styled(Tone::BrightRed, text_with_port("Error: Port ", shown, " requires sudo.")));
        lines.push(styled_str(Tone::Plain, "Either run with sudo:"));
        lines.push(styled_str(Tone::Plain, "e.g.: sudo deport proxy start -p 443 --https"));
        lines.push(styled_str(Tone::Plain, "..or use default port (doesn't require sudo)"));
        lines.push(styled_str(Tone::Plain, "e.g.: deport proxy start"));
        let error = text_with_port("Port ", shown, " requires sudo.");
        proof {
            assert("Error: Port "@ + decimal(shown as nat) + " requires sudo."@ =~= "Error: "@
                + requires_sudo_text(shown)) by {
                reveal_strlit("Error: Port ");
                reveal_strlit("Error: ");
                reveal_strlit("Port ");
            }
        }
        assert(styled_view(lines@) =~= seq![
            (Tone::BrightRed, "Error: "@ + requires_sudo_text(shown)),
            (Tone::Plain, "Either run with sudo:"@),
            (Tone::Plain, "e.g.: sudo deport proxy start -p 443 --https"@),
            (Tone::Plain, "..or use default port (doesn't require sudo)"@),
            (Tone::Plain, "e.g.: deport proxy start"@),
        ]);
        return Err(StartRefusal { lines, error });
    }
    Ok(())
}

/// The lines `deport proxy start` prints once it may go on: a warning when
/// the local CA is not trusted, then the start notice.
pub open spec fn start_notice_spec(ca_trusted: bool) -> Seq<(Tone, Seq<char>)> {
    let warning = if ca_trusted {
        seq![]
    } else {
        seq![
            (
                Tone::Yellow,
                "CA not installed in system trust store, so browsers may show certificate errors/warnings."@,
            ),
            (Tone::Yellow, "Add it by running:"@),
            (Tone::Blue, "deport trust"@),
        ]
    };
    warning + seq![(Tone::Plain, "Starting deported proxy daemon..."@)]
}

/// The lines printed before the daemon is started, as `start_notice_spec` says.
pub fn start_notice(ca_trusted: bool) -> (lines: Vec<Styled>)
    ensures
        styled_view(lines@) == start_notice_spec(ca_trusted),
{
    let mut lines: Vec<Styled> = Vec::new();
    if !ca_trusted {
        lines.push(
            styled_str(
                Tone::Yellow,
                "CA not installed in system trust store, so browsers may show certificate errors/warnings.",
            ),
        );
        lines.push(styled_str(Tone::Yellow, "Add it by running:"));
        lines.push(styled_str(Tone::Blue, "deport trust"));
    }
    lines.push(styled_str(Tone::Plain, "Starting deported proxy daemon..."));
    assert(styled_view(lines@) =~= start_notice_spec(ca_trusted));
    lines
}

// ---------------------------------------------------------------------
// `--env KEY=value,...`
// ---------------------------------------------------------------------

/// The comma-separated items of an `--env` value, white space trimmed off
/// the whole value first.
pub open spec fn kv_items(input: Seq<char>) -> Seq<Seq<char>> {
    split_on(trimmed(input), ',')
}

/// `item` holds an `=`.
pub open spec fn has_eq(item: Seq<char>) -> bool {
    first_index_of(item, '=') < item.len()
}

/// The pair an item stands for: the text before its first `=`, and the text
/// after it.
pub open spec fn kv_pair(item: Seq<char>) -> (Seq<char>, Seq<char>) {
    (item.take(first_index_of(item, '=')), item.skip(first_index_of(item, '=') + 1))
}

/// The pairs read from `items` in order, or `None` when an item has no `=`.
pub open spec fn kv_parse(items: Seq<Seq<char>>) -> Option<Seq<(Seq<char>, Seq<char>)>>
    decreases items.len(),
{
    if items.len() == 0 {
        Some(seq![])
    } else {
        match kv_parse(items.drop_last()) {
            Some(prev) => if has_eq(items.last()) {
                Some(prev.push(kv_pair(items.last())))
            } else {
                None
            },
            None => None,
        }
    }
}

proof fn lemma_kv_prefix(items: Seq<Seq<char>>, j: int)
    requires
        0 <= j <= items.len(),
    ensures
        kv_parse(items.take(j)) is None ==> kv_parse(items) is None,
    decreases items.len(),
{
    if j == items.len() {
        assert(items.take(j) =~= items);
    } else {
        assert(items.take(j) =~= items.drop_last().take(j));
        lemma_kv_prefix(items.drop_last(), j);
    }
}

/// A value that is a single `KEY=value` item (no comma, no white space at
/// either end) reads as one pair: the text before its first `=` and the text
/// after it.
pub proof fn law_single_pair(input: Seq<char>)
    requires
        input.len() > 0,
        !is_white_space(input[0]),
        !is_white_space(input.last()),
        forall|i: int| 0 <= i < input.len() ==> input[i] != ',',
        has_eq(input),
    ensures
        kv_parse(kv_items(input)) == Some(
            seq![
                (
                    input.take(first_index_of(input, '=')),
                    input.skip(first_index_of(input, '=') + 1),
                ),
            ],
        ),
{
    assert(trimmed(input) =~= input);
    lemma_last_index_at(input, ',', -1);
    assert(kv_items(input) == seq![input]);
    let items = seq![input];
    assert(items.drop_last() =~= Seq::<Seq<char>>::empty());
    assert(items.last() == input);
    assert(kv_parse(items.drop_last()) == Some(Seq::<(Seq<char>, Seq<char>)>::empty()));
}

/// Every item of a value reads as its own pair: the item `i` of the value
/// gives pair `i`, split at the item's own first `=`.
pub proof fn law_pairs_per_item(input: Seq<char>)
    requires
        kv_parse(kv_items(input)) is Some,
    ensures
        kv_parse(kv_items(input)).unwrap().len() == kv_items(input).len(),
        forall|i: int|
            0 <= i < kv_items(input).len() ==> has_eq(#[trigger] kv_items(input)[i])
                && kv_parse(kv_items(input)).unwrap()[i] == kv_pair(kv_items(input)[i]),
{
    lemma_kv_parse_items(kv_items(input));
}

proof fn lemma_kv_parse_items(items: Seq<Seq<char>>)
    requires
        kv_parse(items) is Some,
    ensures
        kv_parse(items).unwrap().len() == items.len(),
        forall|i: int|
            0 <= i < items.len() ==> has_eq(#[trigger] items[i]) && kv_parse(items).unwrap()[i]
                == kv_pair(items[i]),
    decreases items.len(),
{
    if items.len() > 0 {
        let front = items.drop_last();
        lemma_kv_parse_items(front);
        assert forall|i: int| 0 <= i < items.len() implies has_eq(#[trigger] items[i]) && kv_parse(
            items,
        ).unwrap()[i] == kv_pair(items[i]) by {
            if i < items.len() - 1 {
                assert(items[i] == front[i]);
            }
        }
    }
}

/// The views of a list of string pairs.
pub open spec fn pair_views(v: Seq<(String, String)>) -> Seq<(Seq<char>, Seq<char>)> {
    v.map_values(|p: (String, String)| (p.0@, p.1@))
}

/// `"invalid KEY=value: no `=` found in `<input>`"`.
pub open spec fn kv_error_text(input: Seq<char>) -> Seq<char> {
    "invalid KEY=value: no `=` found in `"@ + input + "`"@
}

/// Reads the pairs of an `--env` value `KEY=value,KEY=value`: the items
/// between commas, in order, each split at its first `=`; fails at the first
/// item without `=`.
pub fn parse_key_val(input: &str) -> (r: Result<Vec<(String, String)>, String>)
    ensures
        match r {
            Ok(v) => kv_parse(kv_items(input@)) == Some(pair_views(v@)),
            Err(m) => kv_parse(kv_items(input@)) is None && m@ == kv_error_text(input@),
        },
{
    let chars = chars_of(input);
    let t = trim_chars(chars.as_slice());
    let items = split_chars(t.as_slice(), ',');
    let ghost iv = piece_views(items@);
    assert(iv == kv_items(input@));
    let mut out: Vec<(String, String)> = Vec::new();
    let mut j: usize = 0;
    while j < items.len()
        invariant
            j <= items@.len(),
            iv == piece_views(items@),
            iv == kv_items(input@),
            kv_parse(iv.take(j as int)) == Some(pair_views(out@)),
        decreases items@.len() - j,
    {
        let item = &items[j];
        proof {
            assert(iv[j as int] == item@);
            assert(iv.take(j + 1).drop_last() =~= iv.take(j as int));
            assert(iv.take(j + 1).last() == item@);
        }
        match find_char(item.as_slice(), '=') {
            None => {
                proof {
                    lemma_kv_prefix(iv, j + 1);
                }
                let mut m = owned("invalid KEY=value: no `=` found in `");
                push_str(&mut m, input);
                push_str(&mut m, "`");
                return Err(m);
            },
            Some(e) => {
                let n = item.len();
                assert(e < n);
                let key = string_of_range(item.as_slice(), 0, e);
                let value = string_of_range(item.as_slice(), e + 1, n);
                let ghost before = out@;
                out.push((key, value));
                proof {
                    assert(key@ =~= item@.take(e as int));
                    assert(value@ =~= item@.skip(e + 1));
                    assert(pair_views(out@) =~= pair_views(before).push((key@, value@)));
                }
            },
        }
        j = j + 1;
    }
    assert(iv.take(j as int) =~= iv);
    Ok(out)
}

// ---------------------------------------------------------------------
// `deport run`
// ---------------------------------------------------------------------

/// `c` is an ASCII letter or digit.
pub open spec fn is_ascii_alnum(c: char) -> bool {
    ('A' <= c && c <= 'Z') || ('a' <= c && c <= 'z') || ('0' <= c && c <= '9')
}

/// `len` characters drawn with `rand`'s `Alphanumeric` distribution from a
/// `StdRng` seeded by `StdRng::try_from_rng` from the system's random
/// source (`SysRng`). `None` when seeding fails. Claims only what holds of
/// every draw: the length, and that each character is an ASCII letter or
/// digit.
#[verifier::external_body]
fn random_alphanumeric(len: usize) -> (s: Option<String>)
    ensures
        s matches Some(t) ==> t@.len() == len && forall|i: int|
            0 <= i < len ==> is_ascii_alnum(#[trigger] t@[i]),
{
    let mut rng = rand::rngs::StdRng::try_from_rng(&mut rand::rngs::SysRng).ok()?;
    Some((&mut rng).sample_iter(rand::distr::Alphanumeric).take(len).map(char::from).collect())
}

/// Error of `resolve_base_name` when the system's random source fails.
pub const RANDOM_NAME_FAILED: &'static str = "Could not draw a random name: the system random source failed";

/// A usable subdomain made from `name`: its RFC 1035 form, when not empty.
pub open spec fn named_base(name: Seq<char>) -> Option<Seq<char>> {
    if sanitized(name).len() > 0 {
        Some(sanitized(name))
    } else {
        None
    }
}

/// The subdomain inferred from the working directory: its file name made
/// usable as `named_base` says.
pub open spec fn cwd_base(cwd: Option<Seq<char>>) -> Option<Seq<char>> {
    match cwd {
        Some(p) => match file_name(p) {
            Some(f) => named_base(f),
            None => None,
        },
        None => None,
    }
}

/// The name given to a project when nothing better is known, from a random
/// draw: `deported-` and the draw lower-cased.
pub fn fallback_name(random: &str) -> (s: String)
    ensures
        s@ == "deported-"@ + lowercased(random@),
        is_ascii_chars(random@) ==> s@ == "deported-"@ + ascii_lower(random@),
{
    let lower = to_lowercase(random);
    let mut s = owned("deported-");
    push_str(&mut s, lower.as_str());
    s
}

/// The subdomain of `deport run`: the `--name` value made usable (an
/// unusable one is an error), else the working directory's name made
/// usable, else `deported-` and seven random lower-case letters or digits;
/// an error when no random draw can be made.
pub fn resolve_base_name(name: Option<&str>, cwd: Option<&str>) -> (r: Result<String, String>)
    ensures
        match name {
            Some(n) => match named_base(n@) {
                Some(b) => r matches Ok(s) && s@ == b,
                None => r matches Err(m) && m@ == "Invalid name: "@ + n@,
            },
            None => match cwd_base(opt_view(cwd)) {
                Some(b) => r matches Ok(s) && s@ == b,
                None => match r {
                    Ok(s) => exists|d: Seq<char>|
                        #![trigger ascii_lower(d)]
                        d.len() == 7 && (forall|i: int|
                            0 <= i < 7 ==> is_ascii_alnum(#[trigger] d[i])) && s@ == "deported-"@
                            + ascii_lower(d),
                    Err(m) => m@ == RANDOM_NAME_FAILED@,
                },
            },
        },
{
    match name {
        Some(n) => {
            let s = sanitize_rfc1035(n);
            if s.as_str().unicode_len() > 0 {
                return Ok(s);
            }
            let mut m = owned("Invalid name: ");
            push_str(&mut m, n);
            Err(m)
        },
        None => {
            match cwd {
                Some(p) => match path_file_name(p) {
                    Some(f) => {
                        let s = sanitize_rfc1035(f.as_str());
                        if s.as_str().unicode_len() > 0 {
                            return Ok(s);
                        }
                    },
                    None => {},
                },
                None => {},
            }
            let d = match random_alphanumeric(7) {
                Some(d) => d,
                None => return Err(owned(RANDOM_NAME_FAILED)),
            };
            assert(is_ascii_chars(d@));
            let s = fallback_name(d.as_str());
            assert(s@ == "deported-"@ + ascii_lower(d@));
            Ok(s)
        },
    }
}

/// What `deport run` does about the proxy before talking to the daemon.
#[derive(Debug, Clone, Copy, PartialEq, Eq, Structural)]
pub enum ProxyLaunch {
    /// A proxy already answers.
    AlreadyRunning,
    /// None answers and its port is privileged: give up.
    NeedsSudo,
    /// None answers: start one with these arguments.
    Start(StartArgs),
}

/// The proxy decision of `deport run`, given whether a proxy answers.
pub fn proxy_launch(proxy_port: Option<u16>, running: bool, default_port: u16) -> (d: ProxyLaunch)
    ensures
        running ==> d is AlreadyRunning,
        !running && (match proxy_port {
            Some(p) => p,
            None => default_port,
        }) < 1024 ==> d is NeedsSudo,
        !running && (match proxy_port {
            Some(p) => p,
            None => default_port,
        }) >= 1024 ==> (d matches ProxyLaunch::Start(a) && a.spec_port() == proxy_port
            && a.spec_use_https() == Some(true)),
{
    if running {
        return ProxyLaunch::AlreadyRunning;
    }
    let port = match proxy_port {
        Some(p) => p,
        None => default_port,
    };
    if port < 1024 {
        ProxyLaunch::NeedsSudo
    } else {
        ProxyLaunch::Start(StartArgs::new(proxy_port, Some(true)))
    }
}

/// The lines `deport run` prints for its proxy decision.
pub open spec fn launch_lines_spec(d: ProxyLaunch) -> Seq<(Tone, Seq<char>)> {
    match d {
        ProxyLaunch::AlreadyRunning => seq![(Tone::Yellow, "Proxy is already running..."@)],
        ProxyLaunch::NeedsSudo => seq![
            (Tone::Red, "Proxy is not running."@),
            (Tone::Blue, "Start the proxy first (requires sudo for this port):"@),
            (Tone::Cyan, "    sudo deport proxy start -p 80   "@),
            (Tone::Blue, "Or use the default port (no sudo needed):"@),
            (Tone::Cyan, "    deport proxy start   "@),
        ],
        ProxyLaunch::Start(_) => seq![(Tone::Yellow, "Starting proxy..."@)],
    }
}

/// The lines printed for a proxy decision, as `launch_lines_spec` says.
pub fn launch_lines(d: ProxyLaunch) -> (lines: Vec<Styled>)
    ensures
        styled_view(lines@) == launch_lines_spec(d),
{
    let mut lines: Vec<Styled> = Vec::new();
    match d {
        ProxyLaunch::AlreadyRunning => {
            lines.push(styled_str(Tone::Yellow, "Proxy is already running..."));
        },
        ProxyLaunch::NeedsSudo => {
            lines.push(styled_str(Tone::Red, "Proxy is not running."));
            lines.push(styled_str(Tone::Blue, "Start the proxy first (requires sudo for this port):"));
            lines.push(styled_str(Tone::Cyan, "    sudo deport proxy start -p 80   "));
            lines.push(styled_str(Tone::Blue, "Or use the default port (no sudo needed):"));
            lines.push(styled_str(Tone::Cyan, "    deport proxy start   "));
        },
        ProxyLaunch::Start(_) => {
            lines.push(styled_str(Tone::Yellow, "Starting proxy..."));
        },
    }
    assert(styled_view(lines@) =~= launch_lines_spec(d));
    lines
}

/// The lines `deport run` prints after trying to start the proxy.
pub open spec fn launch_result_lines_spec(started: bool) -> Seq<(Tone, Seq<char>)> {
    if started {
        seq![(Tone::Yellow, "Proxy started! Waiting for it to initialize..."@)]
    } else {
        seq![
            (Tone::BrightRed, "Failed to start proxy!"@),
            (Tone::Blue, "Start the proxy manually first: "@),
            (Tone::Cyan, "    deport proxy start   "@),
        ]
    }
}

/// The lines printed after trying to start the proxy, as
/// `launch_result_lines_spec` says.
pub fn launch_result_lines(started: bool) -> (lines: Vec<Styled>)
    ensures
        styled_view(lines@) == launch_result_lines_spec(started),
{
    let mut lines: Vec<Styled> = Vec::new();
    if started {
        lines.push(styled_str(Tone::Yellow, "Proxy started! Waiting for it to initialize..."));
    } else {
        lines.push(styled_str(Tone::BrightRed, "Failed to start proxy!"));
        lines.push(styled_str(Tone::Blue, "Start the proxy manually first: "));
        lines.push(styled_str(Tone::Cyan, "    deport proxy start   "));
    }
    assert(styled_view(lines@) =~= launch_result_lines_spec(started));
    lines
}

/// `"Using custom port: <port>"`, in bright green.
pub fn custom_port_line(port: u16) -> (line: Styled)
    ensures
        line.tone == Tone::BrightGreen,
        line.text@ == "Using custom port: "@ + decimal(port as nat),
{
    let mut s = owned("Using custom port: ");
    write_decimal(&mut s, port as u64);
    styled(Tone::BrightGreen, s)
}

/// The strings glued together with single spaces.
pub fn join_spaced(parts: &Vec<String>) -> (s: String)
    ensures
        s@ == join_with(views(parts@), ' '),
{
    let mut s = String::new();
    let mut i: usize = 0;
    while i < parts.len()
        invariant
            i <= parts@.len(),
            s@ == join_with(views(parts@.take(i as int)), ' '),
        decreases parts@.len() - i,
    {
        proof {
            assert(views(parts@.take(i + 1)).drop_last() =~= views(parts@.take(i as int)));
            assert(views(parts@.take(i + 1)).last() == parts@[i as int]@);
        }
        if i > 0 {
            push_char(&mut s, ' ');
        }
        push_str(&mut s, parts[i].as_str());
        proof {
            if i == 0 {
                assert(views(parts@.take(1)) =~= seq![parts@[0]@]);
            }
        }
        i = i + 1;
    }
    assert(parts@.take(i as int) =~= parts@);
    s
}

/// The command line `deport run` reports before starting the dev server.
pub open spec fn running_line_text(port: u16, cmd: Seq<char>, args: Seq<Seq<char>>) -> Seq<char> {
    "Running PORT="@ + decimal(port as nat) + " HOST=0.0.0.0 "@ + debug_quoted(
        cmd + " "@ + join_with(args, ' '),
    )
}

/// The line reporting the dev server's command, in bright cyan.
pub fn running_line(port: u16, cmd: &str, args: &Vec<String>) -> (line: Styled)
    ensures
        line.tone == Tone::BrightCyan,
        line.text@ == running_line_text(port, cmd@, views(args@)),
{
    let mut full = owned(cmd);
    push_str(&mut full, " ");
    let joined = join_spaced(args);
    push_str(&mut full, joined.as_str());
    let mut s = owned("Running PORT=");
    write_decimal(&mut s, port as u64);
    push_str(&mut s, " HOST=0.0.0.0 ");
    let d = debug_str(full.as_str());
    push_str(&mut s, d.as_str());
    styled(Tone::BrightCyan, s)
}

/// The spawn request of `deport run`: the dev server under the subdomain
/// `base`, on `port`, with the given environment (none when absent) and
/// working directory.
pub fn spawn_request(
    base: String,
    cmd: String,
    args: Vec<String>,
    port: u16,
    env: Option<Vec<(String, String)>>,
    cwd: Option<String>,
) -> (r: Request)
    ensures
        r matches Request::Spawn { config } && config.name == base && config.command == cmd
            && config.args == args && config.port == Some(port) && config.cwd == cwd && config.env@
            == match env {
            Some(e) => e@,
            None => Seq::<(String, String)>::empty(),
        },
{
    let env = match env {
        Some(e) => e,
        None => Vec::new(),
    };
    Request::Spawn { config: ProcessConfig { name: base, command: cmd, args, port: Some(port), env, cwd } }
}

/// `"<base>.localhost"`.
pub open spec fn localhost_name(base: Seq<char>) -> Seq<char> {
    base + ".localhost"@
}

/// The hostname of a subdomain: `<base>.localhost`.
pub fn localhost_host(base: &str) -> (s: String)
    ensures
        s@ == localhost_name(base@),
{
    let mut s = owned(base);
    push_str(&mut s, ".localhost");
    s
}

/// What `deport run` does with the daemon's answer to its spawn request.
pub enum RunStep {
    /// Print these lines, then send this route request.
    Route { lines: Vec<Styled>, request: Request },
    /// Print these lines; nothing more to do.
    Finished { lines: Vec<Styled> },
}

/// The next step of `deport run` after the spawn answer: a started process
/// is reported and its route `<base>.localhost` to (pid, port) requested;
/// an error or anything else is reported.
pub fn after_spawn(base: &str, response: Response) -> (s: RunStep)
    ensures
        match response {
            Response::ProcessInfo(info) => s matches RunStep::Route { lines, request } && styled_view(
                lines@,
            ) == seq![
                (
                    Tone::Blue,
                    "Process "@ + info.name@ + " now running on port "@ + decimal(info.port as nat)
                        + " with PID: "@ + decimal(info.pid as nat),
                ),
            ] && (request matches Request::AddRoute { hostname, route } && hostname@
                == localhost_name(base@) && route == (Route { pid: info.pid, port: info.port })),
            Response::Error { message } => s matches RunStep::Finished { lines } && styled_view(
                lines@,
            ) == seq![(Tone::BrightRed, "Failed to start process: "@ + message@)],
            _ => s matches RunStep::Finished { lines } && styled_view(lines@) == seq![
                (Tone::BrightRed, "Unexpected response from daemon"@),
            ],
        },
{
    let mut lines: Vec<Styled> = Vec::new();
    match response {
        Response::ProcessInfo(info) => {
            let mut t = owned("Process ");
            push_str(&mut t, info.name.as_str());
            push_str(&mut t, " now running on port ");
            write_decimal(&mut t, info.port as u64);
            push_str(&mut t, " with PID: ");
            write_decimal(&mut t, info.pid as u64);
            lines.push(styled(Tone::Blue, t));
            let ghost lv = styled_view(lines@);
            assert(lv =~= seq![
                (
                    Tone::Blue,
                    "Process "@ + info.name@ + " now running on port "@ + decimal(info.port as nat)
                        + " with PID: "@ + decimal(info.pid as nat),
                ),
            ]);
            let hostname = localhost_host(base);
            let route = Route { pid: info.pid, port: info.port };
            RunStep::Route { lines, request: Request::AddRoute { hostname, route } }
        },
        Response::Error { message } => {
            let mut t = owned("Failed to start process: ");
            push_str(&mut t, message.as_str());
            lines.push(styled(Tone::BrightRed, t));
            assert(styled_view(lines@) =~= seq![
                (Tone::BrightRed, "Failed to start process: "@ + message@),
            ]);
            RunStep::Finished { lines }
        },
        _ => {
            lines.push(styled_str(Tone::BrightRed, "Unexpected response from daemon"));
            assert(styled_view(lines@) =~= seq![
                (Tone::BrightRed, "Unexpected response from daemon"@),
            ]);
            RunStep::Finished { lines }
        },
    }
}

/// What `deport run` prints after the route request: the daemon's message
/// when it succeeded, else a failure line; then the route summary.
pub fn after_route(base: &str, port: u16, response: &Response) -> (lines: Vec<Styled>)
    ensures
        styled_view(lines@) == (match *response {
            Response::Success { message } => seq![(Tone::Green, message@)],
            _ => seq![(Tone::BrightRed, "Failed to add route!"@)],
        }) + seq![
            (
                Tone::Green,
                "Route added for "@ + localhost_name(base@) + " -> "@ + decimal(port as nat),
            ),
        ],
{
    let mut lines: Vec<Styled> = Vec::new();
    match response {
        Response::Success { message } => {
            lines.push(styled(Tone::Green, copy_string(message)));
        },
        _ => {
            lines.push(styled_str(Tone::BrightRed, "Failed to add route!"));
        },
    }
    let mut t = owned("Route added for ");
    push_str(&mut t, base);
    push_str(&mut t, ".localhost");
    push_str(&mut t, " -> ");
    write_decimal(&mut t, port as u64);
    assert(t@ =~= "Route added for "@ + localhost_name(base@) + " -> "@ + decimal(port as nat));
    lines.push(styled(Tone::Green, t));
    assert(styled_view(lines@) =~= (match *response {
        Response::Success { message } => seq![(Tone::Green, message@)],
        _ => seq![(Tone::BrightRed, "Failed to add route!"@)],
    }) + seq![
        (Tone::Green, "Route added for "@ + localhost_name(base@) + " -> "@ + decimal(port as nat)),
    ]);
    lines
}

// ---------------------------------------------------------------------
// `deport list`, `deport get`, `deport trust`
// ---------------------------------------------------------------------

/// How a route's process is shown: `inactive` for pid 0, else `pid <pid>`.
pub open spec fn pid_label(pid: u32) -> Seq<char> {
    if pid == 0 {
        "inactive"@
    } else {
        "pid "@ + decimal(pid as nat)
    }
}

/// The line `deport list` prints for one route.
pub open spec fn route_line_spec(host: Seq<char>, route: Route, proxy_port: u16) -> Seq<
    (Tone, Seq<char>),
> {
    seq![
        (Tone::Plain, url_of(host, route.port, true) + " -> "@),
        (Tone::Green, "localhost:"@ + decimal(proxy_port as nat)),
        (Tone::Plain, " ("@ + pid_label(route.pid) + ")"@),
    ]
}

/// The line printed for one route, as `route_line_spec` says.
pub fn route_line(host: &str, route: Route, proxy_port: u16) -> (line: Vec<Styled>)
    ensures
        styled_view(line@) == route_line_spec(host@, route, proxy_port),
{
    let mut url = format_url(host, route.port, true);
    push_str(&mut url, " -> ");
    let mut local = owned("localhost:");
    write_decimal(&mut local, proxy_port as u64);
    let mut label = owned(" (");
    if route.pid == 0 {
        push_str(&mut label, "inactive");
    } else {
        push_str(&mut label, "pid ");
        write_decimal(&mut label, route.pid as u64);
    }
    push_str(&mut label, ")");
    assert(label@ =~= " ("@ + pid_label(route.pid) + ")"@);
    let mut line: Vec<Styled> = Vec::new();
    line.push(styled(Tone::Plain, url));
    line.push(styled(Tone::Green, local));
    line.push(styled(Tone::Plain, label));
    assert(styled_view(line@) =~= route_line_spec(host@, route, proxy_port));
    line
}

/// What `deport list` prints for the daemon's answer (`None` when the
/// request could not be sent): the routes under a heading, the daemon's
/// error, or a complaint about any other answer.
pub fn list_report(response: Option<Response>, proxy_port: u16) -> (lines: Vec<Vec<Styled>>)
    ensures
        match response {
            Some(Response::Routes { routes }) => {
                &&& lines@.len() == routes@.len() + 1
                &&& styled_view(lines@[0]@) == seq![(Tone::Plain, "Active routes:"@)]
                &&& forall|i: int|
                    0 <= i < routes@.len() ==> styled_view(#[trigger] lines@[i + 1]@)
                        == route_line_spec(routes@[i].0@, routes@[i].1, proxy_port)
            },
            Some(Response::Error { message }) => lines@.len() == 1 && styled_view(lines@[0]@)
                == seq![(Tone::BrightRed, "Error fetching routes: "@ + message@)],
            _ => lines@.len() == 1 && styled_view(lines@[0]@) == seq![
                (Tone::BrightRed, "Unexpected response from daemon"@),
            ],
        },
{
    let mut lines: Vec<Vec<Styled>> = Vec::new();
    match response {
        Some(Response::Routes { routes }) => {
            let mut head: Vec<Styled> = Vec::new();
            head.push(styled_str(Tone::Plain, "Active routes:"));
            assert(styled_view(head@) =~= seq![(Tone::Plain, "Active routes:"@)]);
            lines.push(head);
            let mut i: usize = 0;
            while i < routes.len()
                invariant
                    i <= routes@.len(),
                    lines@.len() == i + 1,
                    styled_view(lines@[0]@) == seq![(Tone::Plain, "Active routes:"@)],
                    forall|k: int|
                        0 <= k < i ==> styled_view(#[trigger] lines@[k + 1]@) == route_line_spec(
                            routes@[k].0@,
                            routes@[k].1,
                            proxy_port,
                        ),
                decreases routes@.len() - i,
            {
                let line = route_line(routes[i].0.as_str(), routes[i].1, proxy_port);
                lines.push(line);
                i = i + 1;
            }
        },
        Some(Response::Error { message }) => {
            let mut t = owned("Error fetching routes: ");
            push_str(&mut t, message.as_str());
            let mut line: Vec<Styled> = Vec::new();
            line.push(styled(Tone::BrightRed, t));
            assert(styled_view(line@) =~= seq![
                (Tone::BrightRed, "Error fetching routes: "@ + message@),
            ]);
            lines.push(line);
        },
        _ => {
            let mut line: Vec<Styled> = Vec::new();
            line.push(styled_str(Tone::BrightRed, "Unexpected response from daemon"));
            assert(styled_view(line@) =~= seq![
                (Tone::BrightRed, "Unexpected response from daemon"@),
            ]);
            lines.push(line);
        },
    }
    lines
}

/// What `deport get <name>` ends with, given the daemon's answer for
/// `<name>.localhost`: the service's URL, a note that there is none, or
/// the error it fails with.
pub fn get_report(name: &str, response: Response) -> (r: Result<Styled, String>)
    ensures
        match response {
            Response::Route(Some(route)) => r matches Ok(line) && line.tone == Tone::Plain
                && line.text@ == url_of(localhost_name(name@), route.port, true),
            Response::Route(None) => r matches Ok(line) && line.tone == Tone::Yellow
                && line.text@ == "No service found with name: "@ + name@,
            Response::Error { message } => r matches Err(e) && e@ == "Error fetching routes: "@
                + message@,
            _ => r matches Err(e) && e@ == "Unexpected response from daemon"@,
        },
{
    match response {
        Response::Route(Some(route)) => {
            let host = localhost_host(name);
            Ok(styled(Tone::Plain, format_url(host.as_str(), route.port, true)))
        },
        Response::Route(None) => {
            let mut t = owned("No service found with name: ");
            push_str(&mut t, name);
            Ok(styled(Tone::Yellow, t))
        },
        Response::Error { message } => {
            let mut t = owned("Error fetching routes: ");
            push_str(&mut t, message.as_str());
            Err(t)
        },
        _ => Err(owned("Unexpected response from daemon")),
    }
}

/// What `deport trust` prints and ends with once the CA was handed to the
/// system trust store: success, or the failure with a hint to use sudo
/// when the error mentions it (else the error itself).
pub fn trust_report(outcome: Result<(), String>) -> (r: (Vec<Styled>, Result<(), String>))
    ensures
        match outcome {
            Ok(()) => styled_view(r.0@) == seq![
                (Tone::Green, "Local CA added to system trust store"@),
            ] && r.1 is Ok,
            Err(e) => styled_view(r.0@) == seq![
                (Tone::Red, "Failed to add local CA to system trust store"@),
                if contains_seq(e@, "sudo"@) {
                    (Tone::Cyan, "You might need to run with sudo: sudo deport trust"@)
                } else {
                    (Tone::Red, e@)
                },
            ] && (r.1 matches Err(m) && m@ == e@),
        },
{
    let mut lines: Vec<Styled> = Vec::new();
    match outcome {
        Ok(()) => {
            lines.push(styled_str(Tone::Green, "Local CA added to system trust store"));
            assert(styled_view(lines@) =~= seq![
                (Tone::Green, "Local CA added to system trust store"@),
            ]);
            (lines, Ok(()))
        },
        Err(e) => {
            lines.push(styled_str(Tone::Red, "Failed to add local CA to system trust store"));
            if mentions_sudo(e.as_str()) {
                lines.push(styled_str(Tone::Cyan, "You might need to run with sudo: sudo deport trust"));
            } else {
                lines.push(styled(Tone::Red, copy_string(&e)));
            }
            assert(styled_view(lines@) =~= seq![
                (Tone::Red, "Failed to add local CA to system trust store"@),
                if contains_seq(e@, "sudo"@) {
                    (Tone::Cyan, "You might need to run with sudo: sudo deport trust"@)
                } else {
                    (Tone::Red, e@)
                },
            ]);
            (lines, Err(e))
        },
    }
}

/// What `deport trust` prints and fails with when there is no local CA.
pub fn missing_ca_report() -> (r: (Styled, String))
    ensures
        r.0.tone == Tone::Red,
        r.0.text@ == "Local CA not found"@,
        r.1@ == "Local CA not found."@,
{
    (styled_str(Tone::Red, "Local CA not found"), owned("Local CA not found."))
}

// ---------------------------------------------------------------------
// The app-port setting
// ---------------------------------------------------------------------

/// The app port a setting asks for: unset means none; a value must read as
/// a port from 1 to 65533 (else the setting is rejected, `None`).
pub open spec fn app_port_spec(setting: Option<Seq<char>>) -> Option<Option<u16>> {
    match setting {
        None => Some(None),
        Some(v) => match parse_u16_spec(v) {
            Some(p) => if 1 <= p && p < 65534 {
                Some(Some(p))
            } else {
                None
            },
            None => None,
        },
    }
}

/// An app-port setting is accepted exactly when it is unset or reads as a
/// port from 1 to 65533, and then gives that port.
pub proof fn law_app_port(s: Seq<char>, port: u16)
    ensures
        app_port_spec(None) == Some(None::<u16>),
        parse_u16_spec(s) == Some(port) && 1 <= port < 65534 ==> app_port_spec(Some(s)) == Some(
            Some(port),
        ),
        parse_u16_spec(s) == Some(port) && (port == 0 || port >= 65534) ==> app_port_spec(Some(s))
            is None,
        parse_u16_spec(s) is None ==> app_port_spec(Some(s)) is None,
{
}

/// Whether an app-port setting is accepted.
pub fn app_port_accepted(setting: Option<&str>) -> (b: bool)
    ensures
        b == app_port_spec(opt_view(setting)) is Some,
{
    match setting {
        None => true,
        Some(v) => match parse_u16(v) {
            Some(p) => 1 <= p && p < 65534,
            None => false,
        },
    }
}

/// The app port given the value of the app-port environment setting, which
/// must be accepted (see `app_port_accepted`).
pub fn app_port_from_env(setting: Option<&str>) -> (p: Option<u16>)
    requires
        app_port_spec(opt_view(setting)) is Some,
    ensures
        app_port_spec(opt_view(setting)) == Some(p),
{
    match setting {
        None => None,
        Some(v) => parse_u16(v),
    }
}

/// The message a rejected app-port setting is reported with.
pub fn invalid_app_port_message(value: &str) -> (s: String)
    ensures
        s@ == "Error: Invalid DEPORT_APP_PORT="@ + value@ + ". Must be 1-65535."@,
{
    let mut s = owned("Error: Invalid DEPORT_APP_PORT=");
    push_str(&mut s, value);
    push_str(&mut s, ". Must be 1-65535.");
    s
}

} // verus!
