//! The daemon's side of the command channel: the requests and responses,
//! what the daemon does with each request, and how a message is framed on
//! the socket.
use crate::commands::{StartArgs, already_running_text, requires_sudo_text, restart_hint, restart_hint_spec};
use crate::process_man::{ProcessConfig, ProcessInfo};
use crate::routes::{Route, RouteList, RouteManager, lists_table, table_get, table_insert, table_remove};
use crate::styled::{Styled, Tone, styled, styled_str, styled_view};
use crate::text::{decimal, owned, push_str, write_decimal};
use vstd::prelude::*;

verus! {

/// A request sent to the daemon.
#[derive(Debug)]
pub enum Request {
    Spawn { config: ProcessConfig },
    List,
    Stop { name: String },
    KillDaemon,
    AddRoute { hostname: String, route: Route },
    ListRoutes,
    GetRoute { hostname: String },
    DeleteRoute { hostname: String },
    SetProxyPort(u16),
    StartProxy(StartArgs),
}

/// The daemon's answer to a request.
#[derive(Debug)]
pub enum Response {
    List { processes: Vec<ProcessInfo> },
    ProcessInfo(ProcessInfo),
    Error { message: String },
    /// The request was carried out.
    Success { message: String },
    Routes { routes: RouteList },
    Route(Option<Route>),
    ProxyStarted { message: String },
}

/// Client of the daemon's command channel.
#[derive(Debug, Clone, Copy, PartialEq, Eq, Structural)]
pub struct IpcClient;

/// What the daemon keeps between requests: the route table and the port the
/// proxy was told to use.
pub struct DaemonState {
    pub routes: RouteManager,
    pub proxy_port: u16,
}

impl DaemonState {
    /// The state of a freshly started daemon: no routes, proxy port 0.
    pub fn new() -> (s: Self)
        ensures
            s.routes@ == Map::<Seq<char>, Route>::empty(),
            s.proxy_port == 0,
    {
        DaemonState { routes: RouteManager::new(), proxy_port: 0 }
    }
}

/// What handling a request leaves to do: answer at once, or work that needs
/// the process supervisor or the proxy launcher first.
#[derive(Debug)]
pub enum Effect {
    /// Send this response.
    Reply(Response),
    /// Start a managed process with this configuration.
    Spawn(ProcessConfig),
    /// List the managed processes.
    ListProcesses,
    /// Stop the managed process of this name.
    Stop(String),
    /// Stop every process and shut the daemon down.
    KillDaemon,
    /// Start the proxy as asked.
    StartProxy(StartArgs),
}

/// `"Route <hostname> added successfully!"`.
pub open spec fn route_added_text(hostname: Seq<char>) -> Seq<char> {
    "Route "@ + hostname + " added successfully!"@
}

/// `"Route <hostname> deleted successfully!"`.
pub open spec fn route_deleted_text(hostname: Seq<char>) -> Seq<char> {
    "Route "@ + hostname + " deleted successfully!"@
}

/// `"Proxy port set to <port> successfully!"`.
pub open spec fn port_set_text(port: u16) -> Seq<char> {
    "Proxy port set to "@ + decimal(port as nat) + " successfully!"@
}

fn wrapped(prefix: &str, middle: &str, suffix: &str) -> (s: String)
    ensures
        s@ == prefix@ + middle@ + suffix@,
{
    let mut s = owned(prefix);
    push_str(&mut s, middle);
    push_str(&mut s, suffix);
    s
}

impl Request {
    /// Handles a request against the daemon's state. Route requests and the
    /// proxy-port setting are answered at once; the others are handed on as
    /// the matching `Effect`.
    pub fn process(self, state: &mut DaemonState) -> (e: Effect)
        ensures
            match self {
                Request::AddRoute { hostname, route } => {
                    &&& final(state).routes@ == table_insert(old(state).routes@, hostname@, route)
                    &&& final(state).proxy_port == old(state).proxy_port
                    &&& e matches Effect::Reply(Response::Success { message }) && message@
                        == route_added_text(hostname@)
                },
                Request::DeleteRoute { hostname } => {
                    &&& final(state).routes@ == table_remove(old(state).routes@, hostname@)
                    &&& final(state).proxy_port == old(state).proxy_port
                    &&& e matches Effect::Reply(Response::Success { message }) && message@
                        == route_deleted_text(hostname@)
                },
                Request::SetProxyPort(port) => {
                    &&& final(state).routes@ == old(state).routes@
                    &&& final(state).proxy_port == port
                    &&& e matches Effect::Reply(Response::Success { message }) && message@
                        == port_set_text(port)
                },
                Request::ListRoutes => {
                    &&& final(state).routes@ == old(state).routes@
                    &&& final(state).proxy_port == old(state).proxy_port
                    &&& e matches Effect::Reply(Response::Routes { routes }) && lists_table(
                        routes@,
                        old(state).routes@,
                    )
                },
                Request::GetRoute { hostname } => {
                    &&& final(state).routes@ == old(state).routes@
                    &&& final(state).proxy_port == old(state).proxy_port
                    &&& e matches Effect::Reply(Response::Route(r)) && r == table_get(
                        old(state).routes@,
                        hostname@,
                    )
                },
                Request::Spawn { config } => {
                    &&& final(state).routes@ == old(state).routes@
                    &&& final(state).proxy_port == old(state).proxy_port
                    &&& e == Effect::Spawn(config)
                },
                Request::List => {
                    &&& final(state).routes@ == old(state).routes@
                    &&& final(state).proxy_port == old(state).proxy_port
                    &&& e is ListProcesses
                },
                Request::Stop { name } => {
                    &&& final(state).routes@ == old(state).routes@
                    &&& final(state).proxy_port == old(state).proxy_port
                    &&& e == Effect::Stop(name)
                },
                Request::KillDaemon => {
                    &&& final(state).routes@ == old(state).routes@
                    &&& final(state).proxy_port == old(state).proxy_port
                    &&& e is KillDaemon
                },
                Request::StartProxy(args) => {
                    &&& final(state).routes@ == old(state).routes@
                    &&& final(state).proxy_port == old(state).proxy_port
                    &&& e == Effect::StartProxy(args)
                },
            },
    {
        match self {
            Request::Spawn { config } => Effect::Spawn(config),
            Request::List => Effect::ListProcesses,
            Request::Stop { name } => Effect::Stop(name),
            Request::KillDaemon => Effect::KillDaemon,
            Request::AddRoute { hostname, route } => {
                let message = wrapped("Route ", hostname.as_str(), " added successfully!");
                state.routes.insert(hostname, route);
                Effect::Reply(Response::Success { message })
            },
            Request::ListRoutes => {
                let routes = state.routes.list();
                Effect::Reply(Response::Routes { routes })
            },
            Request::DeleteRoute { hostname } => {
                state.routes.remove(hostname.as_str());
                let message = wrapped("Route ", hostname.as_str(), " deleted successfully!");
                Effect::Reply(Response::Success { message })
            },
            Request::SetProxyPort(port) => {
                state.proxy_port = port;
                let mut message = owned("Proxy port set to ");
                write_decimal(&mut message, port as u64);
                push_str(&mut message, " successfully!");
                Effect::Reply(Response::Success { message })
            },
            Request::GetRoute { hostname } => {
                let route = state.routes.get(hostname.as_str());
                Effect::Reply(Response::Route(route))
            },
            Request::StartProxy(args) => Effect::StartProxy(args),
        }
    }
}

/// How work handed on by `Request::process` ended.
#[derive(Debug)]
pub enum Outcome {
    /// A process was started, or why not.
    Spawned(Result<ProcessInfo, String>),
    /// The managed processes.
    Listed(Vec<ProcessInfo>),
    /// A process was stopped, or why not.
    Stopped(Result<(), String>),
    /// Shutdown of the daemon was set going.
    DaemonKilled,
}

/// The response to finished work.
pub fn reply_for(outcome: Outcome) -> (r: Response)
    ensures
        match outcome {
            Outcome::Spawned(Ok(info)) => r == Response::ProcessInfo(info),
            Outcome::Spawned(Err(m)) => r matches Response::Error { message } && message@ == m@,
            Outcome::Listed(v) => r == (Response::List { processes: v }),
            Outcome::Stopped(Ok(())) => r matches Response::Success { message } && message@
                == "Process stopped successfully"@,
            Outcome::Stopped(Err(m)) => r matches Response::Error { message } && message@ == m@,
            Outcome::DaemonKilled => r matches Response::Success { message } && message@
                == "Daemon killed successfully"@,
        },
{
    match outcome {
        Outcome::Spawned(Ok(info)) => Response::ProcessInfo(info),
        Outcome::Spawned(Err(m)) => Response::Error { message: m },
        Outcome::Listed(v) => Response::List { processes: v },
        Outcome::Stopped(Ok(())) => Response::Success { message: owned("Process stopped successfully") },
        Outcome::Stopped(Err(m)) => Response::Error { message: m },
        Outcome::DaemonKilled => Response::Success { message: owned("Daemon killed successfully") },
    }
}

// ---------------------------------------------------------------------
// Starting the proxy on request
// ---------------------------------------------------------------------

/// Which response a styled answer becomes.
#[derive(Debug, Clone, Copy, PartialEq, Eq, Structural)]
pub enum ReplyKind {
    Success,
    Error,
    ProxyStarted,
}

/// An answer whose text carries terminal looks; it becomes the response of
/// its kind, with the pieces' text (looks applied) as the message.
pub struct StyledReply {
    pub kind: ReplyKind,
    pub parts: Vec<Styled>,
}

/// The daemon's answer to a start request that it turns down before any
/// work: a running proxy, or an explicit port below 1024.
pub open spec fn start_refusal_reply_spec(port: Option<u16>, running: bool, default_port: u16) -> Option<
    (ReplyKind, Seq<(Tone, Seq<char>)>),
> {
    if running {
        let p = match port {
            Some(p) => p,
            None => default_port,
        };
        Some(
            (
                ReplyKind::Success,
                seq![
                    (Tone::Yellow, already_running_text(p)),
                    (Tone::Plain, "\n"@),
                    (Tone::Blue, restart_hint_spec(p, default_port)),
                    (Tone::Plain, "\n"@),
                ],
            ),
        )
    } else {
        match port {
            Some(p) => if p < 1024 {
                Some(
                    (
                        ReplyKind::Error,
                        seq![
                            (Tone::Plain, "\n"@),
                            (Tone::BrightRed, "Error: "@ + requires_sudo_text(p)),
                            (Tone::Plain, "\n"@),
                            (Tone::Plain, "Either run with sudo:"@),
                            (Tone::Plain, "\n"@),
                            (Tone::Blue, "e.g.: sudo deport proxy start -p 443 --https"@),
                            (Tone::Plain, "\n"@),
                            (Tone::Blink, "..or use default port (doesn't require sudo)"@),
                            (Tone::Plain, "\n"@),
                            (Tone::Blue, "e.g.: deport proxy start"@),
                            (Tone::Plain, "\n"@),
                        ],
                    ),
                )
            } else {
                None
            },
            None => None,
        }
    }
}

/// The first decision on a start request, given whether a proxy already
/// answers: `None` to go on, else the answer `start_refusal_reply_spec` gives.
pub fn start_refusal_reply(port: Option<u16>, running: bool, default_port: u16) -> (r: Option<
    StyledReply,
>)
    ensures
        match r {
            None => start_refusal_reply_spec(port, running, default_port) is None,
            Some(reply) => start_refusal_reply_spec(port, running, default_port) == Some(
                (reply.kind, styled_view(reply.parts@)),
            ),
        },
{
    if running {
        let p = match port {
            Some(p) => p,
            None => default_port,
        };
        let mut first = owned("Proxy is already running on port ");
        write_decimal(&mut first, p as u64);
        let mut parts: Vec<Styled> = Vec::new();
        parts.push(styled(Tone::Yellow, first));
        parts.push(styled_str(Tone::Plain, "\n"));
        parts.push(styled(Tone::Blue, restart_hint(p, default_port)));
        parts.push(styled_str(Tone::Plain, "\n"));
        assert(styled_view(parts@) =~= seq![
            (Tone::Yellow, already_running_text(p)),
            (Tone::Plain, "\n"@),
            (Tone::Blue, restart_hint_spec(p, default_port)),
            (Tone::Plain, "\n"@),
        ]);
        return Some(StyledReply { kind: ReplyKind::Success, parts });
    }
    match port {
        Some(p) => {
            if p < 1024 {
                let mut head = owned("Error: Port ");
                write_decimal(&mut head, p as u64);
                push_str(&mut head, " requires sudo.");
                proof {
                    assert("Error: Port "@ + decimal(p as nat) + " requires sudo."@ =~= "Error: "@
                        + requires_sudo_text(p)) by {
                        reveal_strlit("Error: Port ");
                        reveal_strlit("Error: ");
                        reveal_strlit("Port ");
                    }
                }
                let mut parts: Vec<Styled> = Vec::new();
                parts.push(styled_str(Tone::Plain, "\n"));
                parts.push(styled(Tone::BrightRed, head));
                parts.push(styled_str(Tone::Plain, "\n"));
                parts.push(styled_str(Tone::Plain, "Either run with sudo:"));
                parts.push(styled_str(Tone::Plain, "\n"));
                parts.push(styled_str(Tone::Blue, "e.g.: sudo deport proxy start -p 443 --https"));
                parts.push(styled_str(Tone::Plain, "\n"));
                parts.push(styled_str(Tone::Blink, "..or use default port (doesn't require sudo)"));
                parts.push(styled_str(Tone::Plain, "\n"));
                parts.push(styled_str(Tone::Blue, "e.g.: deport proxy start"));
                parts.push(styled_str(Tone::Plain, "\n"));
                assert(styled_view(parts@) =~= seq![
                    (Tone::Plain, "\n"@),
                    (Tone::BrightRed, "Error: "@ + requires_sudo_text(p)),
                    (Tone::Plain, "\n"@),
                    (Tone::Plain, "Either run with sudo:"@),
                    (Tone::Plain, "\n"@),
                    (Tone::Blue, "e.g.: sudo deport proxy start -p 443 --https"@),
                    (Tone::Plain, "\n"@),
                    (Tone::Blink, "..or use default port (doesn't require sudo)"@),
                    (Tone::Plain, "\n"@),
                    (Tone::Blue, "e.g.: deport proxy start"@),
                    (Tone::Plain, "\n"@),
                ]);
                Some(StyledReply { kind: ReplyKind::Error, parts })
            } else {
                None
            }
        },
        None => None,
    }
}

/// The daemon's answer once it tried to start the proxy: the launch error,
/// or a trust warning (when the CA is not trusted) and the start notice.
pub open spec fn start_reply_spec(ca_trusted: bool, launched: Result<(), Seq<char>>) -> (
    ReplyKind,
    Seq<(Tone, Seq<char>)>,
) {
    match launched {
        Err(e) => (ReplyKind::Error, seq![(Tone::Plain, "Failed to start daemon: "@ + e)]),
        Ok(()) => {
            let warning = if ca_trusted {
                seq![]
            } else {
                seq![
                    (
                        Tone::Yellow,
                        "CA not installed in system trust store, so browsers may show certificate errors/warnings."@,
                    ),
                    (Tone::Plain, "\n"@),
                    (Tone::Yellow, "Add it by running:"@),
                    (Tone::Plain, "\n"@),
                    (Tone::Blue, "deport trust"@),
                    (Tone::Plain, "\n"@),
                ]
            };
            (
                ReplyKind::ProxyStarted,
                warning + seq![(Tone::Plain, "Starting deported proxy daemon...\n"@)],
            )
        },
    }
}

/// The answer to a start request that went on to launch the proxy, as
/// `start_reply_spec` says.
pub fn start_reply(ca_trusted: bool, launched: Result<(), String>) -> (r: StyledReply)
    ensures
        (r.kind, styled_view(r.parts@)) == start_reply_spec(
            ca_trusted,
            match launched {
                Ok(()) => Ok(()),
                Err(e) => Err(e@),
            },
        ),
{
    let mut parts: Vec<Styled> = Vec::new();
    match launched {
        Err(e) => {
            let m = wrapped("Failed to start daemon: ", e.as_str(), "");
            proof {
                reveal_strlit("");
                assert(m@ =~= "Failed to start daemon: "@ + e@);
            }
            parts.push(styled(Tone::Plain, m));
            assert(styled_view(parts@) =~= seq![(Tone::Plain, "Failed to start daemon: "@ + e@)]);
            StyledReply { kind: ReplyKind::Error, parts }
        },
        Ok(()) => {
            if !ca_trusted {
                parts.push(
                    styled_str(
                        Tone::Yellow,
                        "CA not installed in system trust store, so browsers may show certificate errors/warnings.",
                    ),
                );
                parts.push(styled_str(Tone::Plain, "\n"));
                parts.push(styled_str(Tone::Yellow, "Add it by running:"));
                parts.push(styled_str(Tone::Plain, "\n"));
                parts.push(styled_str(Tone::Blue, "deport trust"));
                parts.push(styled_str(Tone::Plain, "\n"));
            }
            parts.push(styled_str(Tone::Plain, "Starting deported proxy daemon...\n"));
            assert(styled_view(parts@) =~= start_reply_spec(ca_trusted, Ok(())).1);
            StyledReply { kind: ReplyKind::ProxyStarted, parts }
        },
    }
}

// ---------------------------------------------------------------------
// The listening socket
// ---------------------------------------------------------------------

/// How a test connection to an existing socket path went.
#[derive(Debug, Clone, Copy, PartialEq, Eq, Structural)]
pub enum SocketProbe {
    /// Another listener answered.
    Answered,
    /// The socket belongs to another user.
    PermissionDenied,
    /// No listener: the path is stale or missing.
    Nothing,
}

/// Whether the daemon may take over the socket path: not while another
/// listener answers on it, nor when it belongs to another user.
pub fn bind_precheck(probe: SocketProbe) -> (r: Result<(), &'static str>)
    ensures
        match probe {
            SocketProbe::Answered => r matches Err(m) && m@ == "IPC socket already in use"@,
            SocketProbe::PermissionDenied => r matches Err(m) && m@
                == "IPC socket already in use (owned by another user)"@,
            SocketProbe::Nothing => r is Ok,
        },
{
    match probe {
        SocketProbe::Answered => Err("IPC socket already in use"),
        SocketProbe::PermissionDenied => Err("IPC socket already in use (owned by another user)"),
        SocketProbe::Nothing => Ok(()),
    }
}

// ---------------------------------------------------------------------
// Framing
// ---------------------------------------------------------------------

/// The big-endian bytes of a 32-bit length.
pub open spec fn be32(n: u32) -> Seq<u8> {
    seq![
        (n / 0x100_0000) as u8,
        ((n / 0x1_0000) % 0x100) as u8,
        ((n / 0x100) % 0x100) as u8,
        (n % 0x100) as u8,
    ]
}

/// The number four big-endian bytes stand for.
pub open spec fn be32_value(b: Seq<u8>) -> int {
    b[0] * 0x100_0000 + b[1] * 0x1_0000 + b[2] * 0x100 + b[3]
}

/// The length field written for a message of `len` bytes: the length taken
/// modulo 2^32, as a 32-bit cast does.
pub open spec fn length_field(len: nat) -> u32 {
    (len % 0x1_0000_0000) as u32
}

/// A framed message: its length field, then its bytes.
pub open spec fn framed(msg: Seq<u8>) -> Seq<u8> {
    be32(length_field(msg.len())) + msg
}

/// The message at the start of `buf`: `None` until the length field and as
/// many bytes as it names have arrived.
pub open spec fn unframed(buf: Seq<u8>) -> Option<Seq<u8>> {
    if buf.len() >= 4 && 4 + be32_value(buf.take(4)) <= buf.len() {
        Some(buf.subrange(4, 4 + be32_value(buf.take(4))))
    } else {
        None
    }
}

/// Frames a message for the socket.
pub fn frame(msg: &[u8]) -> (f: Vec<u8>)
    ensures
        f@ == framed(msg@),
{
    let n: u32 = ((msg.len() as u64) % 0x1_0000_0000u64) as u32;
    let mut f: Vec<u8> = Vec::new();
    f.push((n / 0x100_0000) as u8);
    f.push(((n / 0x1_0000) % 0x100) as u8);
    f.push(((n / 0x100) % 0x100) as u8);
    f.push((n % 0x100) as u8);
    let mut i: usize = 0;
    while i < msg.len()
        invariant
            i <= msg@.len(),
            f@ == be32(n) + msg@.take(i as int),
            n == length_field(msg@.len()),
        decreases msg@.len() - i,
    {
        f.push(msg[i]);
        i = i + 1;
        assert(msg@.take(i as int) =~= msg@.take(i - 1).push(msg@[i - 1]));
    }
    assert(msg@.take(i as int) =~= msg@);
    f
}

/// The length a received length field names.
pub fn frame_length(header: &[u8]) -> (n: u32)
    requires
        header@.len() >= 4,
    ensures
        n == be32_value(header@.take(4)),
{
    let n = (header[0] as u32) * 0x100_0000 + (header[1] as u32) * 0x1_0000 + (header[2] as u32)
        * 0x100 + header[3] as u32;
    n
}

/// A message framed and read back is the message itself, for every message
/// shorter than 4 GiB.
pub proof fn law_frame_roundtrip(msg: Seq<u8>)
    requires
        msg.len() < 0x1_0000_0000,
    ensures
        unframed(framed(msg)) == Some(msg),
{
    let n = length_field(msg.len());
    assert(n == msg.len());
    let f = framed(msg);
    assert(f.take(4) =~= be32(n));
    assert(be32_value(be32(n)) == n) by (nonlinear_arith)
        requires
            be32(n) == seq![
                (n / 0x100_0000) as u8,
                ((n / 0x1_0000) % 0x100) as u8,
                ((n / 0x100) % 0x100) as u8,
                (n % 0x100) as u8,
            ],
    ;
    assert(f.subrange(4, 4 + n) =~= msg);
}

/// A start request is refused up front exactly when a proxy already runs
/// (answered as a success with the restart hint) or, with none running,
/// when it names a port below 1024. A request without a port, or with a
/// port of 1024 or more, goes on.
pub proof fn law_start_refusal(port: Option<u16>, running: bool, default_port: u16)
    ensures
        running ==> (start_refusal_reply_spec(port, running, default_port) is Some
            && start_refusal_reply_spec(port, running, default_port).unwrap().0
            == ReplyKind::Success),
        !running ==> (start_refusal_reply_spec(port, running, default_port) is Some <==> (
        port is Some && port.unwrap() < 1024)),
{
}

/// A start request for an explicit port below 1024, with no proxy running,
/// is answered with an error naming that port as needing sudo.
pub proof fn law_start_refusal_privileged(port: u16, default_port: u16)
    requires
        port < 1024,
    ensures
        start_refusal_reply_spec(Some(port), false, default_port) is Some,
        start_refusal_reply_spec(Some(port), false, default_port).unwrap().0 == ReplyKind::Error,
        start_refusal_reply_spec(Some(port), false, default_port).unwrap().1[1] == (
            Tone::BrightRed,
            "Error: Port "@ + decimal(port as nat) + " requires sudo."@,
        ),
{
    assert("Error: "@ + requires_sudo_text(port) =~= "Error: Port "@ + decimal(port as nat)
        + " requires sudo."@) by {
        reveal_strlit("Error: Port ");
        reveal_strlit("Error: ");
        reveal_strlit("Port ");
    }
}

} // verus!
