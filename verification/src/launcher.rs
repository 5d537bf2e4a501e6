//! The stand-alone process launcher: its configuration and the order in
//! which it probes ports when looking for a free one.
use vstd::prelude::*;

verus! {

/// How the launcher starts a process.
#[derive(Debug, Clone)]
pub struct ProcessConfig {
    pub name: String,
    pub command: String,
    pub args: Vec<String>,
    /// `None` means "find one for me".
    pub port: Option<u16>,
}

/// Number of ports tried in the quick sparse pass (1024, 1124, 1224, ...).
pub const SPARSE_PROBES: u32 = 60;

/// Number of ports tried in the exhaustive pass, which covers 1024..=65535
/// except the proxy's own port.
pub open spec fn exhaustive_count(proxy_port: u16) -> nat {
    if proxy_port >= 1024 {
        64511
    } else {
        64512
    }
}

/// The `j`-th port of the exhaustive pass: the ports from 1024 upwards,
/// the proxy's port left out.
pub open spec fn exhaustive_port(proxy_port: u16, j: int) -> int {
    if proxy_port >= 1024 && 1024 + j >= proxy_port {
        1024 + j + 1
    } else {
        1024 + j
    }
}

/// The `k`-th port the launcher tries: first every hundredth port from
/// 1024, then every port from 1024 upwards except the proxy's; `None` once
/// all are tried.
pub open spec fn nth_probe(proxy_port: u16, k: int) -> Option<u16> {
    if 0 <= k < SPARSE_PROBES {
        Some((1024 + 100 * k) as u16)
    } else if SPARSE_PROBES <= k < SPARSE_PROBES + exhaustive_count(proxy_port) {
        Some(exhaustive_port(proxy_port, k - SPARSE_PROBES) as u16)
    } else {
        None
    }
}

/// Progress of a free-port search.
pub struct PortSearch {
    position: u32,
    proxy_port: u16,
}

impl View for PortSearch {
    type V = (int, u16);

    closed spec fn view(&self) -> (int, u16) {
        (self.position as int, self.proxy_port)
    }
}

/// What the search does next.
#[derive(Debug, Clone, Copy, PartialEq, Eq, Structural)]
pub enum SearchStep {
    /// Try to bind this port, then report the result.
    Probe(u16),
    /// This port could be bound: the search is over.
    Found(u16),
    /// Every candidate failed.
    Exhausted,
}

impl PortSearch {
    /// A search that has tried nothing yet, avoiding `proxy_port`.
    pub fn new(proxy_port: u16) -> (s: Self)
        ensures
            s@ == (0int, proxy_port),
    {
        PortSearch { position: 0, proxy_port }
    }

    /// The port to try now, if any remain.
    pub fn current(&self) -> (p: Option<u16>)
        requires
            self@.0 <= SPARSE_PROBES + exhaustive_count(self@.1),
        ensures
            p == nth_probe(self@.1, self@.0),
    {
        let k = self.position;
        let d = self.proxy_port;
        if k < SPARSE_PROBES {
            Some((1024 + 100 * k) as u16)
        } else {
            let count: u32 = if d >= 1024 {
                64511
            } else {
                64512
            };
            if k < SPARSE_PROBES + count {
                let j = k - SPARSE_PROBES;
                if d >= 1024 && 1024 + j >= d as u32 {
                    Some((1024 + j + 1) as u16)
                } else {
                    Some((1024 + j) as u16)
                }
            } else {
                None
            }
        }
    }

    /// The next step after trying the current port: stop at a port that
    /// could be bound, else move on to the next candidate.
    pub fn after_probe(&mut self, bound: bool) -> (step: SearchStep)
        requires
            old(self)@.0 < SPARSE_PROBES + exhaustive_count(old(self)@.1),
        ensures
            final(self)@.1 == old(self)@.1,
            bound ==> final(self)@ == old(self)@ && step == SearchStep::Found(
                nth_probe(old(self)@.1, old(self)@.0).unwrap(),
            ),
            !bound ==> final(self)@.0 == old(self)@.0 + 1 && step == match nth_probe(
                old(self)@.1,
                old(self)@.0 + 1,
            ) {
                Some(p) => SearchStep::Probe(p),
                None => SearchStep::Exhausted,
            },
            final(self)@.0 <= SPARSE_PROBES + exhaustive_count(final(self)@.1),
    {
        if bound {
            let p = self.current();
            return SearchStep::Found(p.unwrap());
        }
        self.position = self.position + 1;
        match self.current() {
            Some(p) => SearchStep::Probe(p),
            None => SearchStep::Exhausted,
        }
    }

    /// The first step of a search.
    pub fn first_step(&self) -> (step: SearchStep)
        requires
            self@.0 == 0,
        ensures
            step == SearchStep::Probe(1024),
    {
        match self.current() {
            Some(p) => SearchStep::Probe(p),
            None => SearchStep::Exhausted,
        }
    }
}

/// The exhaustive pass never tries the proxy's port, stays within
/// 1024..=65535 and tries ports in increasing order.
pub proof fn law_exhaustive_order(proxy_port: u16, i: int, j: int)
    requires
        0 <= i < j < exhaustive_count(proxy_port),
    ensures
        exhaustive_port(proxy_port, i) != proxy_port,
        1024 <= exhaustive_port(proxy_port, i) <= 65535,
        exhaustive_port(proxy_port, i) < exhaustive_port(proxy_port, j),
{
}

/// Every port from 1024 to 65535 other than the proxy's is tried in the
/// exhaustive pass.
pub proof fn law_exhaustive_covers(proxy_port: u16, port: int)
    requires
        1024 <= port <= 65535,
        port != proxy_port,
    ensures
        exists|j: int|
            0 <= j < exhaustive_count(proxy_port) && exhaustive_port(proxy_port, j) == port,
{
    if proxy_port >= 1024 && port > proxy_port {
        assert(exhaustive_port(proxy_port, port - 1025) == port);
    } else {
        assert(exhaustive_port(proxy_port, port - 1024) == port);
    }
}

/// Error of a launch that found no port for the child.
pub const NO_FREE_PORTS: &'static str = "No free ports found";

/// The port a launched child gets: the configured one, else the port the
/// search found, else the error "No free ports found" (reported as an
/// address-in-use error).
pub fn launch_port(requested: Option<u16>, found: Option<u16>) -> (r: Result<u16, &'static str>)
    ensures
        match requested {
            Some(p) => r == Ok::<u16, &'static str>(p),
            None => match found {
                Some(f) => r == Ok::<u16, &'static str>(f),
                None => r matches Err(m) && m@ == NO_FREE_PORTS@,
            },
        },
{
    match requested {
        Some(p) => Ok(p),
        None => match found {
            Some(f) => Ok(f),
            None => Err(NO_FREE_PORTS),
        },
    }
}

} // verus!
