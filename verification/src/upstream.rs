//! Named upstream groups and the choice of a live backend among them.

use vstd::prelude::*;

verus! {

/// A socket address held as text and number: the host as written (an IP
/// address in its usual notation) and the port.
#[derive(Debug)]
pub struct BackendAddr {
    pub host: String,
    pub port: u16,
}

/// Mathematical model of a [`BackendAddr`].
pub struct AddrModel {
    pub host: Seq<char>,
    pub port: u16,
}

impl View for BackendAddr {
    type V = AddrModel;

    open spec fn view(&self) -> AddrModel {
        AddrModel { host: self.host@, port: self.port }
    }
}

impl Clone for BackendAddr {
    fn clone(&self) -> (copy: Self)
        ensures
            copy@ == self@,
    {
        BackendAddr { host: self.host.clone(), port: self.port }
    }
}

impl BackendAddr {
    pub fn new(host: String, port: u16) -> (addr: Self)
        ensures
            addr@ == (AddrModel { host: host@, port }),
    {
        BackendAddr { host, port }
    }

    /// Whether two addresses are the same host and port.
    pub fn same(&self, other: &BackendAddr) -> (equal: bool)
        ensures
            equal == (self@ == other@),
    {
        let hosts = self.host == other.host;
        hosts && self.port == other.port
    }
}

/// The models of a list of addresses.
pub open spec fn addr_views(addrs: Seq<BackendAddr>) -> Seq<AddrModel> {
    addrs.map_values(|a: BackendAddr| a@)
}

/// The backends that the health probes currently hold to be down.
#[derive(Debug)]
pub struct HealthSnapshot {
    pub down: Vec<BackendAddr>,
}

impl View for HealthSnapshot {
    type V = Seq<AddrModel>;

    open spec fn view(&self) -> Seq<AddrModel> {
        addr_views(self.down@)
    }
}

impl HealthSnapshot {
    /// A snapshot in which every backend is up.
    pub fn all_up() -> (health: Self)
        ensures
            health@ == Seq::<AddrModel>::empty(),
    {
        let health = HealthSnapshot { down: Vec::new() };
        assert(health@ =~= Seq::<AddrModel>::empty());
        health
    }

    /// Marks a backend as down.
    pub fn mark_down(&mut self, addr: BackendAddr)
        ensures
            final(self)@ == old(self)@.push(addr@),
    {
        self.down.push(addr);
        assert(self@ =~= old(self)@.push(addr@));
    }

    /// Whether a backend is marked down.
    pub fn is_fall_down(&self, addr: &BackendAddr) -> (down: bool)
        ensures
            down == self@.contains(addr@),
    {
        let n: usize = self.down.len();
        let mut i: usize = 0;
        while i < n
            invariant
                n == self.down@.len(),
                i <= n,
                forall|k: int| 0 <= k < i ==> self@[k] != addr@,
            decreases n - i,
        {
            if self.down[i].same(addr) {
                assert(self@[i as int] == addr@);
                return true;
            }
            i += 1;
        }
        false
    }
}

/// The first of `servers`, in their order, that is not among `down`.
pub open spec fn first_up(servers: Seq<AddrModel>, down: Seq<AddrModel>) -> Option<AddrModel>
    decreases servers.len(),
{
    if servers.len() == 0 {
        None
    } else if !down.contains(servers[0]) {
        Some(servers[0])
    } else {
        first_up(servers.drop_first(), down)
    }
}

/// A named group of backends.
#[derive(Debug)]
pub struct UpstreamConfig {
    pub name: String,
    pub server: Vec<BackendAddr>,
}

/// Mathematical model of an [`UpstreamConfig`].
pub struct UpstreamModel {
    pub name: Seq<char>,
    pub server: Seq<AddrModel>,
}

impl View for UpstreamConfig {
    type V = UpstreamModel;

    open spec fn view(&self) -> UpstreamModel {
        UpstreamModel { name: self.name@, server: addr_views(self.server@) }
    }
}

/// Model of an optional address.
pub open spec fn addr_option_view(addr: Option<BackendAddr>) -> Option<AddrModel> {
    match addr {
        Some(a) => Some(a@),
        None => None,
    }
}

impl UpstreamConfig {
    pub fn new(name: String, server: Vec<BackendAddr>) -> (upstream: Self)
        ensures
            upstream@ == (UpstreamModel { name: name@, server: addr_views(server@) }),
    {
        UpstreamConfig { name, server }
    }

    /// An upstream of one backend.
    pub fn new_single(name: String, addr: BackendAddr) -> (upstream: Self)
        ensures
            upstream@ == (UpstreamModel { name: name@, server: seq![addr@] }),
    {
        let mut server: Vec<BackendAddr> = Vec::new();
        server.push(addr);
        let upstream = UpstreamConfig { name, server };
        assert(upstream@.server =~= seq![addr@]);
        upstream
    }

    /// The backend to use now: the first in configured order that the
    /// snapshot does not hold to be down.
    pub fn get_server_addr(&self, health: &HealthSnapshot) -> (addr: Option<BackendAddr>)
        ensures
            addr_option_view(addr) == first_up(self@.server, health@),
    {
        let n: usize = self.server.len();
        let mut i: usize = 0;
        assert(self@.server.subrange(0, n as int) =~= self@.server);
        while i < n
            invariant
                n == self.server@.len(),
                i <= n,
                first_up(self@.server, health@) == first_up(
                    self@.server.subrange(i as int, n as int),
                    health@,
                ),
            decreases n - i,
        {
            let ghost rest = self@.server.subrange(i as int, n as int);
            assert(rest[0] == self.server@[i as int]@);
            assert(rest.drop_first() =~= self@.server.subrange(i + 1, n as int));
            if !health.is_fall_down(&self.server[i]) {
                return Some(self.server[i].clone());
            }
            i += 1;
        }
        assert(self@.server.subrange(n as int, n as int).len() == 0);
        None
    }
}

/// A backend chosen by [`first_up`] is one of the group and is not down.
pub proof fn lemma_first_up_is_live(servers: Seq<AddrModel>, down: Seq<AddrModel>)
    ensures
        first_up(servers, down) is Some ==> servers.contains(first_up(servers, down)->0)
            && !down.contains(first_up(servers, down)->0),
    decreases servers.len(),
{
    if servers.len() > 0 {
        if !down.contains(servers[0]) {
            assert(servers[0] == first_up(servers, down)->0);
        } else {
            lemma_first_up_is_live(servers.drop_first(), down);
            if first_up(servers, down) is Some {
                let a = first_up(servers, down)->0;
                let k = choose|k: int| 0 <= k < servers.drop_first().len() && servers.drop_first()[k] == a;
                assert(servers[k + 1] == a);
            }
        }
    }
}

/// No backend is chosen exactly when every backend of the group is down.
pub proof fn lemma_first_up_none(servers: Seq<AddrModel>, down: Seq<AddrModel>)
    ensures
        first_up(servers, down) is None <==> (forall|i: int|
            0 <= i < servers.len() ==> down.contains(#[trigger] servers[i])),
    decreases servers.len(),
{
    if servers.len() > 0 {
        lemma_first_up_none(servers.drop_first(), down);
        if down.contains(servers[0]) {
            if first_up(servers, down) is None {
                assert forall|i: int| 0 <= i < servers.len() implies down.contains(
                    #[trigger] servers[i],
                ) by {
                    if i > 0 {
                        assert(servers[i] == servers.drop_first()[i - 1]);
                    }
                }
            } else {
                let rest = servers.drop_first();
                let j = choose|j: int| 0 <= j < rest.len() && !down.contains(#[trigger] rest[j]);
                assert(rest[j] == servers[j + 1]);
            }
        }
    }
}

} // verus!
