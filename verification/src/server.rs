//! A server's routing configuration: its locations, in their order, and the
//! upstream groups that proxy targets may name.

use vstd::prelude::*;
use crate::location::LocationConfig;
use crate::location::LocationModel;
use crate::target::text_option_view;
use crate::text::contains_text;
use crate::upstream::first_up;
use crate::upstream::lemma_first_up_is_live;
use crate::upstream::AddrModel;
use crate::upstream::BackendAddr;
use crate::upstream::HealthSnapshot;
use crate::upstream::UpstreamConfig;
use crate::upstream::UpstreamModel;

verus! {

/// Why a name resolves to no backend.
#[derive(Debug, Clone, Copy, PartialEq, Eq, Structural)]
pub enum ResolveError {
    /// No upstream group has the name.
    NotFound,
    /// The group has the name, and every backend of it is down.
    Unavailable,
}

/// The routing configuration of one listening server.
#[derive(Debug)]
pub struct ServerConfig {
    pub bind_addr: BackendAddr,
    pub location: Vec<LocationConfig>,
    pub root: Option<String>,
    pub upstream: Vec<UpstreamConfig>,
}

/// Mathematical model of a [`ServerConfig`].
pub struct ServerModel {
    pub bind_addr: AddrModel,
    pub location: Seq<LocationModel>,
    pub root: Option<Seq<char>>,
    pub upstream: Seq<UpstreamModel>,
}

impl View for ServerConfig {
    type V = ServerModel;

    open spec fn view(&self) -> ServerModel {
        ServerModel {
            bind_addr: self.bind_addr@,
            location: self.location@.map_values(|l: LocationConfig| l@),
            root: text_option_view(self.root),
            upstream: self.upstream@.map_values(|u: UpstreamConfig| u@),
        }
    }
}

/// The first group, in configured order, that has the name.
pub open spec fn find_named(upstreams: Seq<UpstreamModel>, name: Seq<char>) -> Option<
    UpstreamModel,
>
    decreases upstreams.len(),
{
    if upstreams.len() == 0 {
        None
    } else if upstreams[0].name == name {
        Some(upstreams[0])
    } else {
        find_named(upstreams.drop_first(), name)
    }
}

/// What a name resolves to: the first live backend of the first group of
/// that name.
pub open spec fn resolve_model(
    upstreams: Seq<UpstreamModel>,
    down: Seq<AddrModel>,
    name: Seq<char>,
) -> Result<AddrModel, ResolveError> {
    match find_named(upstreams, name) {
        None => Err(ResolveError::NotFound),
        Some(group) => match first_up(group.server, down) {
            Some(addr) => Ok(addr),
            None => Err(ResolveError::Unavailable),
        },
    }
}

/// Model of the outcome of a resolution.
pub open spec fn resolution_view(outcome: Result<BackendAddr, ResolveError>) -> Result<
    AddrModel,
    ResolveError,
> {
    match outcome {
        Ok(addr) => Ok(addr@),
        Err(e) => Err(e),
    }
}

/// The location at `index` is the first that takes the path.
pub open spec fn first_match_at(locations: Seq<LocationModel>, path: Seq<char>, index: int) -> bool {
    &&& 0 <= index < locations.len()
    &&& contains_text(path, locations[index].rule)
    &&& forall|j: int| 0 <= j < index ==> !contains_text(path, #[trigger] locations[j].rule)
}

/// No location takes the path.
pub open spec fn no_match(locations: Seq<LocationModel>, path: Seq<char>) -> bool {
    forall|j: int| 0 <= j < locations.len() ==> !contains_text(path, #[trigger] locations[j].rule)
}

impl ServerConfig {
    /// A server that listens on `bind_addr`, with no location and no upstream.
    pub fn new(bind_addr: BackendAddr) -> (server: Self)
        ensures
            server@ == (ServerModel {
                bind_addr: bind_addr@,
                location: Seq::empty(),
                root: None,
                upstream: Seq::empty(),
            }),
    {
        let server = ServerConfig {
            bind_addr,
            location: Vec::new(),
            root: None,
            upstream: Vec::new(),
        };
        assert(server@.location =~= Seq::empty());
        assert(server@.upstream =~= Seq::empty());
        server
    }

    /// Resolves a name as an upstream group to one of its live backends.
    pub fn get_upstream_addr(&self, name: &String, health: &HealthSnapshot) -> (outcome: Result<
        BackendAddr,
        ResolveError,
    >)
        ensures
            resolution_view(outcome) == resolve_model(self@.upstream, health@, name@),
    {
        let n: usize = self.upstream.len();
        let mut i: usize = 0;
        assert(self@.upstream.subrange(0, n as int) =~= self@.upstream);
        while i < n
            invariant
                n == self.upstream@.len(),
                i <= n,
                find_named(self@.upstream, name@) == find_named(
                    self@.upstream.subrange(i as int, n as int),
                    name@,
                ),
            decreases n - i,
        {
            let ghost rest = self@.upstream.subrange(i as int, n as int);
            assert(rest[0] == self.upstream@[i as int]@);
            assert(rest.drop_first() =~= self@.upstream.subrange(i + 1, n as int));
            if self.upstream[i].name == *name {
                return match self.upstream[i].get_server_addr(health) {
                    Some(addr) => Ok(addr),
                    None => Err(ResolveError::Unavailable),
                };
            }
            i += 1;
        }
        assert(self@.upstream.subrange(n as int, n as int).len() == 0);
        Err(ResolveError::NotFound)
    }

    /// The location a path is routed to: the first, in configured order,
    /// whose rule the path contains.
    pub fn find_location(&self, path: &String) -> (found: Option<usize>)
        ensures
            match found {
                Some(index) => first_match_at(self@.location, path@, index as int),
                None => no_match(self@.location, path@),
            },
    {
        let n: usize = self.location.len();
        let mut i: usize = 0;
        while i < n
            invariant
                n == self.location@.len(),
                i <= n,
                forall|j: int| 0 <= j < i ==> !contains_text(path@, #[trigger] self@.location[j].rule),
            decreases n - i,
        {
            if self.location[i].is_match_rule(path) {
                assert(self@.location[i as int] == self.location@[i as int]@);
                return Some(i);
            }
            assert(self@.location[i as int] == self.location@[i as int]@);
            i += 1;
        }
        None
    }
}

/// Of two indices that are each the first match of a path, there is only
/// one: the choice of a location is determined by the configuration and
/// the path.
pub proof fn lemma_first_match_unique(
    locations: Seq<LocationModel>,
    path: Seq<char>,
    a: int,
    b: int,
)
    requires
        first_match_at(locations, path, a),
        first_match_at(locations, path, b),
    ensures
        a == b,
{
    if a < b {
        assert(!contains_text(path, locations[a].rule));
    }
    if b < a {
        assert(!contains_text(path, locations[b].rule));
    }
}

/// A resolved backend belongs to a group of the given name and is not down.
pub proof fn lemma_resolved_is_live(
    upstreams: Seq<UpstreamModel>,
    down: Seq<AddrModel>,
    name: Seq<char>,
)
    ensures
        resolve_model(upstreams, down, name) is Ok ==> !down.contains(
            resolve_model(upstreams, down, name)->Ok_0,
        ),
{
    if let Some(group) = find_named(upstreams, name) {
        lemma_first_up_is_live(group.server, down);
    }
}

/// A name resolves to `NotFound` exactly when no group has it.
pub proof fn lemma_not_found_iff_unknown(
    upstreams: Seq<UpstreamModel>,
    down: Seq<AddrModel>,
    name: Seq<char>,
)
    ensures
        resolve_model(upstreams, down, name) == Err::<AddrModel, ResolveError>(
            ResolveError::NotFound,
        ) <==> (forall|i: int| 0 <= i < upstreams.len() ==> (#[trigger] upstreams[i]).name != name),
{
    lemma_find_named_none(upstreams, name);
}

/// No group is found exactly when no group has the name.
pub proof fn lemma_find_named_none(upstreams: Seq<UpstreamModel>, name: Seq<char>)
    ensures
        find_named(upstreams, name) is None <==> (forall|i: int|
            0 <= i < upstreams.len() ==> (#[trigger] upstreams[i]).name != name),
    decreases upstreams.len(),
{
    if upstreams.len() > 0 {
        let rest = upstreams.drop_first();
        lemma_find_named_none(rest, name);
        if upstreams[0].name != name {
            if find_named(upstreams, name) is None {
                assert forall|i: int| 0 <= i < upstreams.len() implies (#[trigger] upstreams[i]).name
                    != name by {
                    if i > 0 {
                        assert(upstreams[i] == rest[i - 1]);
                    }
                }
            } else {
                let j = choose|j: int| 0 <= j < rest.len() && (#[trigger] rest[j]).name == name;
                assert(rest[j] == upstreams[j + 1]);
            }
        }
    }
}

} // verus!
