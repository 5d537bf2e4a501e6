//! The route table: which local port (and process) serves each hostname.
use dashmap::DashMap;
use vstd::prelude::*;

verus! {

/// `dashmap::DashMap`, a concurrent hash map, carried opaquely.
#[verifier::external_type_specification]
#[verifier::external_body]
#[verifier::reject_recursive_types(K)]
#[verifier::reject_recursive_types(V)]
#[verifier::reject_recursive_types(S)]
pub struct ExDashMap<K, V, S>(DashMap<K, V, S>);

/// Where a hostname is forwarded to: the backend port and the pid serving it
/// (`pid == 0` marks a route whose process is not known to be running).
#[derive(Clone, Copy, Debug, PartialEq, Eq, Structural)]
pub struct Route {
    pub port: u16,
    pub pid: u32,
}

/// The concurrent map behind a route table.
pub type RouteMap = DashMap<String, Route>;

/// A listing of routes: hostname and route pairs.
pub type RouteList = Vec<(String, Route)>;

/// The entries of a route map, keyed by hostname characters.
pub uninterp spec fn route_entries(m: DashMap<String, Route>) -> Map<Seq<char>, Route>;

/// `DashMap::new`: the new map holds no entries.
#[verifier::external_body]
fn route_map_new() -> (res: RouteMap)
    ensures
        route_entries(res).dom().len() == 0 && route_entries(res).dom().finite(),
{
    DashMap::new()
}

/// `DashMap::insert`: afterwards `key` maps to `value`; other entries stay.
#[verifier::external_body]
fn route_map_insert(m: &mut DashMap<String, Route>, key: String, value: Route)
    ensures
        route_entries(*final(m)) == route_entries(*old(m)).insert(key@, value),
{
    m.insert(key, value);
}

/// `DashMap::get`, copying out the value: `Some` of the stored value exactly
/// when `key` has an entry.
#[verifier::external_body]
fn route_map_get(m: &DashMap<String, Route>, key: &str) -> (res: Option<Route>)
    ensures
        res == (if route_entries(*m).dom().contains(key@) {
            Some(route_entries(*m)[key@])
        } else {
            None
        }),
{
    m.get(key).map(|r| *r.value())
}

/// `DashMap::get_mut` followed by an assignment through the returned guard:
/// when `key` has an entry its value becomes `value` and `true` comes back;
/// otherwise nothing changes and `false` comes back.
#[verifier::external_body]
fn route_map_assign(m: &mut DashMap<String, Route>, key: &str, value: Route) -> (found: bool)
    ensures
        found == route_entries(*old(m)).dom().contains(key@),
        route_entries(*final(m)) == (if found {
            route_entries(*old(m)).insert(key@, value)
        } else {
            route_entries(*old(m))
        }),
{
    match m.get_mut(key) {
        Some(mut slot) => {
            *slot = value;
            true
        },
        None => false,
    }
}

/// `DashMap::remove`: afterwards `key` has no entry; other entries stay.
#[verifier::external_body]
fn route_map_remove(m: &mut DashMap<String, Route>, key: &str)
    ensures
        route_entries(*final(m)) == route_entries(*old(m)).remove(key@),
{
    m.remove(key);
}

/// `DashMap::iter`, each entry copied out as an owned `(hostname, route)`
/// pair. Claims: every pair is an entry, every entry comes out exactly once.
/// The order, which depends on the map's hasher, is left unsaid.
#[verifier::external_body]
fn route_map_entries(m: &RouteMap) -> (v: RouteList)
    ensures
        lists_table(v@, route_entries(*m)),
{
    m.iter().map(|e| (e.key().clone(), *e.value())).collect()
}

/// The table after registering `route` for `hostname`.
pub open spec fn table_insert(t: Map<Seq<char>, Route>, hostname: Seq<char>, route: Route) -> Map<
    Seq<char>,
    Route,
> {
    t.insert(hostname, route)
}

/// The route registered for `hostname`, if any.
pub open spec fn table_get(t: Map<Seq<char>, Route>, hostname: Seq<char>) -> Option<Route> {
    if t.dom().contains(hostname) {
        Some(t[hostname])
    } else {
        None
    }
}

/// The table after dropping `hostname`.
pub open spec fn table_remove(t: Map<Seq<char>, Route>, hostname: Seq<char>) -> Map<
    Seq<char>,
    Route,
> {
    t.remove(hostname)
}

/// The outcome of replacing the route of `hostname`: the new table, or the
/// unchanged table with an error when `hostname` has no route.
pub open spec fn table_update(t: Map<Seq<char>, Route>, hostname: Seq<char>, route: Route) -> (
    Map<Seq<char>, Route>,
    bool,
) {
    if t.dom().contains(hostname) {
        (t.insert(hostname, route), true)
    } else {
        (t, false)
    }
}

/// No hostname occurs twice in `v`.
pub open spec fn distinct_hostnames(v: Seq<(String, Route)>) -> bool {
    forall|i: int, j: int| 0 <= i < j < v.len() ==> v[i].0@ != v[j].0@
}

/// `v` lists exactly the entries of `t`, each hostname once.
pub open spec fn lists_table(v: Seq<(String, Route)>, t: Map<Seq<char>, Route>) -> bool {
    &&& t.dom().finite()
    &&& v.len() == t.dom().len()
    &&& forall|i: int|
        0 <= i < v.len() ==> t.dom().contains(#[trigger] v[i].0@) && t[v[i].0@] == v[i].1
    &&& distinct_hostnames(v)
    &&& forall|k: Seq<char>| #[trigger] t.dom().contains(k) ==> exists|i: int|
        0 <= i < v.len() && v[i].0@ == k
}

/// Error of `RouteManager::update` for a hostname without a route.
pub const HOSTNAME_NOT_FOUND: &'static str = "Hostname not found";

/// Hostname-to-route table of the proxy.
pub struct RouteManager {
    routes: DashMap<String, Route>,
}

impl View for RouteManager {
    type V = Map<Seq<char>, Route>;

    closed spec fn view(&self) -> Map<Seq<char>, Route> {
        route_entries(self.routes)
    }
}

impl RouteManager {
    /// An empty table.
    pub fn new() -> (s: Self)
        ensures
            s@ == Map::<Seq<char>, Route>::empty(),
    {
        RouteManager { routes: route_map_new() }
    }

    /// Registers (or replaces) the route of `hostname`.
    pub fn insert(&mut self, hostname: String, route: Route)
        ensures
            final(self)@ == table_insert(old(self)@, hostname@, route),
    {
        route_map_insert(&mut self.routes, hostname, route);
    }

    /// The route of `hostname`, if it has one.
    pub fn get(&self, hostname: &str) -> (res: Option<Route>)
        ensures
            res == table_get(self@, hostname@),
    {
        route_map_get(&self.routes, hostname)
    }

    /// All `(hostname, route)` pairs, each hostname once, in no fixed order.
    pub fn list(&self) -> (v: RouteList)
        ensures
            lists_table(v@, self@),
    {
        route_map_entries(&self.routes)
    }

    /// Replaces the route of a registered hostname; fails with
    /// "Hostname not found", changing nothing, when it has none.
    pub fn update(&mut self, hostname: &str, route: Route) -> (res: Result<(), &'static str>)
        ensures
            final(self)@ == table_update(old(self)@, hostname@, route).0,
            res is Ok <==> table_update(old(self)@, hostname@, route).1,
            res matches Err(e) ==> e@ == HOSTNAME_NOT_FOUND@,
    {
        if route_map_assign(&mut self.routes, hostname, route) {
            Ok(())
        } else {
            Err(HOSTNAME_NOT_FOUND)
        }
    }

    /// Drops the route of `hostname`, if any.
    pub fn remove(&mut self, hostname: &str)
        ensures
            final(self)@ == table_remove(old(self)@, hostname@),
    {
        route_map_remove(&mut self.routes, hostname);
    }
}

/// A route registered for a hostname is what a lookup of that hostname
/// returns.
pub proof fn law_get_after_insert(t: Map<Seq<char>, Route>, hostname: Seq<char>, route: Route)
    ensures
        table_get(table_insert(t, hostname, route), hostname) == Some(route),
{
}

/// Registering one hostname leaves the lookup of every other hostname as it
/// was.
pub proof fn law_insert_keeps_others(
    t: Map<Seq<char>, Route>,
    hostname: Seq<char>,
    other: Seq<char>,
    route: Route,
)
    requires
        hostname != other,
    ensures
        table_get(table_insert(t, hostname, route), other) == table_get(t, other),
{
}

/// After a hostname is removed, a lookup of it finds nothing; other
/// hostnames keep their routes.
pub proof fn law_get_after_remove(t: Map<Seq<char>, Route>, hostname: Seq<char>, other: Seq<char>)
    ensures
        table_get(table_remove(t, hostname), hostname) == None::<Route>,
        other != hostname ==> table_get(table_remove(t, hostname), other) == table_get(t, other),
{
}

/// Updating succeeds exactly for registered hostnames; a success acts as a
/// registration, a failure changes nothing.
pub proof fn law_update(t: Map<Seq<char>, Route>, hostname: Seq<char>, route: Route)
    ensures
        table_update(t, hostname, route).1 <==> table_get(t, hostname) is Some,
        table_update(t, hostname, route).1 ==> table_update(t, hostname, route).0 == table_insert(
            t,
            hostname,
            route,
        ),
        !table_update(t, hostname, route).1 ==> table_update(t, hostname, route).0 == t,
{
}

/// Registering a hostname grows the listing by one entry exactly when the
/// hostname was new; re-registering keeps its size.
pub proof fn law_insert_size(t: Map<Seq<char>, Route>, hostname: Seq<char>, route: Route)
    requires
        t.dom().finite(),
    ensures
        table_insert(t, hostname, route).dom().len() == if t.dom().contains(hostname) {
            t.dom().len()
        } else {
            t.dom().len() + 1
        },
{
}

/// Removing a registered hostname shrinks the table by one; removing an
/// unknown one changes nothing.
pub proof fn law_remove_size(t: Map<Seq<char>, Route>, hostname: Seq<char>)
    requires
        t.dom().finite(),
    ensures
        table_remove(t, hostname).dom().len() == if t.dom().contains(hostname) {
            (t.dom().len() - 1) as nat
        } else {
            t.dom().len()
        },
        !t.dom().contains(hostname) ==> table_remove(t, hostname) == t,
{
    if !t.dom().contains(hostname) {
        assert(t.remove(hostname) =~= t);
    }
}

/// A listing taken after a hostname was registered shows that hostname,
/// once, with the route registered for it.
pub proof fn law_listed_after_insert(
    v: Seq<(String, Route)>,
    t: Map<Seq<char>, Route>,
    hostname: Seq<char>,
    route: Route,
)
    requires
        lists_table(v, table_insert(t, hostname, route)),
    ensures
        exists|i: int| 0 <= i < v.len() && v[i].0@ == hostname && v[i].1 == route,
        forall|i: int, j: int|
            0 <= i < v.len() && 0 <= j < v.len() && v[i].0@ == hostname && v[j].0@ == hostname
                ==> i == j,
{
    assert(table_insert(t, hostname, route).dom().contains(hostname));
    let i = choose|i: int| 0 <= i < v.len() && v[i].0@ == hostname;
    assert(table_insert(t, hostname, route).dom().contains(v[i].0@));
}

/// A listing taken after a hostname was removed does not show it.
pub proof fn law_not_listed_after_remove(v: Seq<(String, Route)>, t: Map<Seq<char>, Route>, hostname: Seq<char>)
    requires
        lists_table(v, table_remove(t, hostname)),
    ensures
        forall|i: int| 0 <= i < v.len() ==> v[i].0@ != hostname,
{
    assert forall|i: int| 0 <= i < v.len() implies v[i].0@ != hostname by {
        assert(table_remove(t, hostname).dom().contains(v[i].0@));
    }
}

} // verus!
