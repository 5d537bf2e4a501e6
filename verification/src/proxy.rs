//! Decisions of the TLS-terminating reverse proxy: where a request for a
//! hostname is forwarded, and whether a proxy daemon is already up.
use crate::routes::{table_get, RouteManager};
use crate::text::{decimal, push_str, write_decimal};
use vstd::prelude::*;

verus! {

/// Where an incoming request goes.
pub enum ForwardPlan {
    /// No route for the requested host: answer 404 "Not Found".
    NotFound,
    /// Forward to the backend at `uri`, naming the client in
    /// `X-Forwarded-For`.
    Forward { uri: String, forwarded_for: String },
}

/// The value of an optional header, or a fallback.
pub open spec fn or_else(v: Option<Seq<char>>, fallback: Seq<char>) -> Seq<char> {
    match v {
        Some(s) => s,
        None => fallback,
    }
}

/// The view of an optional string.
pub open spec fn opt_view(v: Option<&str>) -> Option<Seq<char>> {
    match v {
        Some(s) => Some(s@),
        None => None,
    }
}

/// The backend URI for a route's port and the request's path and query.
pub open spec fn backend_uri(port: u16, path_and_query: Seq<char>) -> Seq<char> {
    "http://127.0.0.1:"@ + decimal(port as nat) + path_and_query
}

/// Body of the answer for an unknown host.
pub const NOT_FOUND_BODY: &'static str = "Not Found";

/// Body of the answer when the backend cannot be reached.
pub const BAD_GATEWAY_BODY: &'static str = "Bad Gateway";

/// Value of the `x-deport` marker header put on forwarded requests.
pub const DEPORT_MARKER: &'static str = "1";

/// Decides how to forward a request: the `Host` header (empty when absent or
/// unreadable) selects the route; the client address is taken from an
/// existing `X-Forwarded-For`, else the peer address, else 127.0.0.1.
pub fn forward_plan(
    routes: &RouteManager,
    host: Option<&str>,
    forwarded_for: Option<&str>,
    peer_ip: Option<&str>,
    path_and_query: Option<&str>,
) -> (plan: ForwardPlan)
    ensures
        match table_get(routes@, or_else(opt_view(host), Seq::empty())) {
            None => plan is NotFound,
            Some(route) => plan matches ForwardPlan::Forward { uri, forwarded_for: ff } && uri@
                == backend_uri(route.port, or_else(opt_view(path_and_query), Seq::empty()))
                && ff@ == or_else(
                opt_view(forwarded_for),
                or_else(opt_view(peer_ip), "127.0.0.1"@),
            ),
        },
{
    let h = match host {
        Some(h) => h,
        None => "",
    };
    proof {
        if host is None {
            assert(h@ =~= Seq::<char>::empty()) by {
                reveal_strlit("");
            }
        }
    }
    let route = match routes.get(h) {
        Some(r) => r,
        None => return ForwardPlan::NotFound,
    };
    let mut ff = String::new();
    match forwarded_for {
        Some(x) => push_str(&mut ff, x),
        None => match peer_ip {
            Some(p) => push_str(&mut ff, p),
            None => push_str(&mut ff, "127.0.0.1"),
        },
    }
    let mut uri = String::new();
    push_str(&mut uri, "http://127.0.0.1:");
    write_decimal(&mut uri, route.port as u64);
    match path_and_query {
        Some(pq) => push_str(&mut uri, pq),
        None => {},
    }
    proof {
        if path_and_query is None {
            assert(uri@ =~= backend_uri(route.port, Seq::empty()));
        }
        if forwarded_for is None {
            assert(ff@ =~= or_else(opt_view(peer_ip), "127.0.0.1"@));
        }
    }
    ForwardPlan::Forward { uri, forwarded_for: ff }
}

/// How connecting to the daemon's IPC endpoint went.
#[derive(Debug, Clone, Copy, PartialEq, Eq, Structural)]
pub enum ConnectProbe {
    Connected,
    PermissionDenied,
    Failed,
}

/// A proxy counts as running when its IPC endpoint accepts a connection or
/// refuses it for lack of permission (owned by another user).
pub fn proxy_running(probe: ConnectProbe) -> (b: bool)
    ensures
        b <==> probe != ConnectProbe::Failed,
{
    match probe {
        ConnectProbe::Connected => true,
        ConnectProbe::PermissionDenied => true,
        ConnectProbe::Failed => false,
    }
}

/// The address the proxy listens on.
pub fn listen_address(port: u16) -> (s: String)
    ensures
        s@ == "127.0.0.1:"@ + decimal(port as nat),
{
    let mut s = String::new();
    push_str(&mut s, "127.0.0.1:");
    write_decimal(&mut s, port as u64);
    s
}

/// The hostname a TLS client asked for by SNI, or "unknown".
pub fn sni_domain(server_name: Option<&str>) -> (s: String)
    ensures
        s@ == or_else(opt_view(server_name), "unknown"@),
{
    let mut s = String::new();
    match server_name {
        Some(n) => push_str(&mut s, n),
        None => push_str(&mut s, "unknown"),
    }
    s
}

/// A new CA key pair is generated unless both the certificate and the key
/// file already exist.
pub fn must_generate_ca(cert_exists: bool, key_exists: bool) -> (b: bool)
    ensures
        b == (!cert_exists || !key_exists),
{
    !cert_exists || !key_exists
}

} // verus!
