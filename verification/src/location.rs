//! A location: a path rule and the handler that requests under it go to.

use vstd::prelude::*;
use crate::error::ConfigDefect;
use crate::error::ProxyError;
use crate::file_server::trimmed_prefix;
use crate::file_server::FileServer;
use crate::file_server::FileServerModel;
use crate::headers::header_entries;
use crate::headers::header_systems;
use crate::headers::host_entries;
use crate::headers::set_host;
use crate::proxy::plan_model;
use crate::proxy::plan_result_view;
use crate::proxy::PlanModel;
use crate::proxy::ProxyPlan;
use crate::server::ServerConfig;
use crate::server::ServerModel;
use crate::target::target_option_view;
use crate::target::url_parse;
use crate::target::Scheme;
use crate::target::SchemeModel;
use crate::target::Target;
use crate::upstream::AddrModel;
use crate::upstream::HealthSnapshot;
use crate::target::clone_text_option;
use crate::target::text_option_view;
use crate::text::chars_of;
use crate::text::contains_chars;
use crate::text::contains_text;

verus! {

/// The header rules of a location that declares none.
pub fn default_headers() -> (rules: Vec<Vec<String>>)
    ensures
        rules@.len() == 0,
{
    Vec::new()
}

/// The owning server of a location that records none: locations hold no
/// reference to their server, only, where needed, its index in the
/// configuration.
pub fn default_null() -> (owner: Option<usize>)
    ensures
        owner is None,
{
    None
}

/// One routing rule of a server.
#[derive(Debug)]
pub struct LocationConfig {
    /// Requests whose path contains this text go to the location.
    pub rule: String,
    /// File serving, where the location serves files. It goes first.
    pub file_server: Option<FileServer>,
    /// Header rewrite rules: a directive and its arguments each.
    pub headers: Vec<Vec<String>>,
    /// The proxy target, where the location forwards.
    pub reverse_proxy: Option<String>,
}

/// Mathematical model of a [`LocationConfig`].
pub struct LocationModel {
    pub rule: Seq<char>,
    pub file_server: Option<FileServerModel>,
    pub headers: Seq<Seq<Seq<char>>>,
    pub reverse_proxy: Option<Seq<char>>,
}

/// Model of an optional file-serving handler.
pub open spec fn file_option_view(server: Option<FileServer>) -> Option<FileServerModel> {
    match server {
        Some(s) => Some(s@),
        None => None,
    }
}

impl View for LocationConfig {
    type V = LocationModel;

    open spec fn view(&self) -> LocationModel {
        LocationModel {
            rule: self.rule@,
            file_server: file_option_view(self.file_server),
            headers: self.headers.deep_view(),
            reverse_proxy: text_option_view(self.reverse_proxy),
        }
    }
}

/// Copies the tokens of one rule.
pub fn clone_tokens(tokens: &Vec<String>) -> (copy: Vec<String>)
    ensures
        copy.deep_view() == tokens.deep_view(),
{
    let n: usize = tokens.len();
    let mut copy: Vec<String> = Vec::new();
    let mut i: usize = 0;
    while i < n
        invariant
            n == tokens@.len(),
            i <= n,
            copy@.len() == i,
            forall|k: int| 0 <= k < i ==> copy@[k]@ == tokens@[k]@,
        decreases n - i,
    {
        copy.push(tokens[i].clone());
        i += 1;
    }
    assert(copy.deep_view() =~= tokens.deep_view());
    copy
}

/// Copies a list of rules.
pub fn clone_rules(rules: &Vec<Vec<String>>) -> (copy: Vec<Vec<String>>)
    ensures
        copy.deep_view() == rules.deep_view(),
{
    let n: usize = rules.len();
    let mut copy: Vec<Vec<String>> = Vec::new();
    let mut i: usize = 0;
    while i < n
        invariant
            n == rules@.len(),
            i <= n,
            copy@.len() == i,
            forall|k: int| 0 <= k < i ==> copy@[k].deep_view() == rules@[k].deep_view(),
        decreases n - i,
    {
        copy.push(clone_tokens(&rules[i]));
        i += 1;
    }
    assert(copy.deep_view() =~= rules.deep_view());
    copy
}

impl Clone for LocationConfig {
    fn clone(&self) -> (copy: Self)
        ensures
            copy@ == self@,
    {
        let file_server = match &self.file_server {
            Some(s) => Some(s.clone()),
            None => None,
        };
        LocationConfig {
            rule: self.rule.clone(),
            file_server,
            headers: clone_rules(&self.headers),
            reverse_proxy: clone_text_option(&self.reverse_proxy),
        }
    }
}

/// The handler a location's settings amount to.
#[derive(Debug, Clone, Copy, PartialEq, Eq, Structural)]
pub enum Handler {
    /// Files are served; a proxy target, if there is one too, is not used.
    FileServing,
    /// Requests are forwarded to the proxy target.
    ReverseProxy,
    /// Neither is set: a defect of the configuration.
    Unconfigured,
}

/// The handler of a location.
pub open spec fn handler_model(location: LocationModel) -> Handler {
    if location.file_server is Some {
        Handler::FileServing
    } else if location.reverse_proxy is Some {
        Handler::ReverseProxy
    } else {
        Handler::Unconfigured
    }
}

impl LocationConfig {
    /// Which handler requests to the location go to.
    pub fn handler(&self) -> (handler: Handler)
        ensures
            handler == handler_model(self@),
    {
        if self.file_server.is_some() {
            Handler::FileServing
        } else if self.reverse_proxy.is_some() {
            Handler::ReverseProxy
        } else {
            Handler::Unconfigured
        }
    }

    /// A location with an empty rule and no handler.
    pub fn new() -> (location: Self)
        ensures
            location@ == (LocationModel {
                rule: Seq::empty(),
                file_server: None,
                headers: Seq::empty(),
                reverse_proxy: None,
            }),
    {
        let location = LocationConfig {
            rule: String::new(),
            file_server: None,
            headers: default_headers(),
            reverse_proxy: None,
        };
        assert(location.headers.deep_view() =~= Seq::empty());
        location
    }

    /// Whether the location takes a path: the path contains the rule.
    pub fn is_match_rule(&self, path: &String) -> (matched: bool)
        ensures
            matched == contains_text(path@, self@.rule),
    {
        let hay = chars_of(path.as_str());
        let needle = chars_of(self.rule.as_str());
        contains_chars(&hay, &needle)
    }
}

/// What the dispatcher hands a request to.
#[derive(Debug)]
pub enum RequestAction {
    /// Serve a file by this handler, its defaults filled in.
    ServeFile(FileServer),
    /// Forward to a backend by this plan.
    Proxy(ProxyPlan),
}

/// Mathematical model of a [`RequestAction`].
pub enum RequestActionModel {
    ServeFile(FileServerModel),
    Proxy(PlanModel),
}

impl View for RequestAction {
    type V = RequestActionModel;

    open spec fn view(&self) -> RequestActionModel {
        match self {
            RequestAction::ServeFile(server) => RequestActionModel::ServeFile(server@),
            RequestAction::Proxy(plan) => RequestActionModel::Proxy(plan@),
        }
    }
}

/// Model of a dispatch or failure.
pub open spec fn action_result_view(outcome: Result<RequestAction, ProxyError>) -> Result<
    RequestActionModel,
    ProxyError,
> {
    match outcome {
        Ok(action) => Ok(action@),
        Err(e) => Err(e),
    }
}

/// A file-serving handler with the server-wide defaults: the server's root
/// where it has none of its own, the location's rule as prefix where its
/// prefix is empty.
pub open spec fn file_defaults(
    file: FileServerModel,
    root: Option<Seq<char>>,
    rule: Seq<char>,
) -> FileServerModel {
    FileServerModel {
        root: if file.root is None {
            root
        } else {
            file.root
        },
        prefix: if file.prefix.len() == 0 {
            trimmed_prefix(rule)
        } else {
            file.prefix
        },
    }
}

/// What becomes of a request at a location: file serving goes first, then
/// the proxy target; a location with neither fails the request.
pub open spec fn dispatch_model(
    server: ServerModel,
    index: int,
    down: Seq<AddrModel>,
    inbound: SchemeModel,
) -> Result<RequestActionModel, ProxyError>
    recommends
        0 <= index < server.location.len(),
{
    let location = server.location[index];
    if location.file_server is Some {
        Ok(
            RequestActionModel::ServeFile(
                file_defaults(location.file_server->0, server.root, location.rule),
            ),
        )
    } else if location.reverse_proxy is Some {
        match plan_model(
            server.upstream,
            down,
            inbound,
            location.headers,
            url_parse(location.reverse_proxy->0),
        ) {
            Ok(plan) => Ok(RequestActionModel::Proxy(plan)),
            Err(e) => Err(e),
        }
    } else {
        Err(ProxyError::ConfigurationError(ConfigDefect::NoHandler))
    }
}

impl LocationConfig {
    /// Plans the outbound leg for a target that has been parsed: resolves
    /// its domain as an upstream name, or keeps it as a literal host where
    /// it is none; takes the inbound scheme where the target has none; and
    /// builds the address to connect to.
    pub fn plan_reverse_proxy(
        &self,
        server: &ServerConfig,
        health: &HealthSnapshot,
        inbound: &Scheme,
        parsed: Option<Target>,
    ) -> (outcome: Result<ProxyPlan, ProxyError>)
        ensures
            plan_result_view(outcome) == plan_model(
                server@.upstream,
                health@,
                inbound@,
                self@.headers,
                target_option_view(parsed),
            ),
    {
        let mut target = match parsed {
            Some(t) => t,
            None => {
                return Err(ProxyError::ConfigurationError(ConfigDefect::InvalidTarget));
            },
        };
        let logical = match &target.domain {
            Some(domain) => domain.clone(),
            None => {
                return Err(ProxyError::ConfigurationError(ConfigDefect::InvalidTarget));
            },
        };
        match server.get_upstream_addr(&logical, health) {
            Ok(addr) => {
                target.domain = Some(addr.host);
                target.port = Some(addr.port);
            },
            Err(_) => {},
        }
        if target.scheme.is_absent() {
            target.scheme = inbound.clone();
        }
        let connect = match target.get_connect_url() {
            Some(address) => address,
            None => {
                return Err(ProxyError::ConnectError);
            },
        };
        let tls = !target.scheme.is_http();
        Ok(ProxyPlan { target, host: logical, connect, tls, headers: clone_rules(&self.headers) })
    }

    /// Handles a request that the location forwards: parses the target,
    /// plans the outbound leg and, where a plan results, sets the request's
    /// `Host` header to the domain the target names. Nothing is connected
    /// here; a failure leaves the request's headers as they were.
    pub fn deal_reverse_proxy(
        &self,
        server: &ServerConfig,
        health: &HealthSnapshot,
        inbound: &Scheme,
        request_headers: &mut webparse::HeaderMap,
        reverse: String,
    ) -> (outcome: Result<ProxyPlan, ProxyError>)
        ensures
            plan_result_view(outcome) == plan_model(
                server@.upstream,
                health@,
                inbound@,
                self@.headers,
                url_parse(reverse@),
            ),
            reverse@.len() == 0 ==> outcome == Err::<ProxyPlan, ProxyError>(
                ProxyError::ConfigurationError(ConfigDefect::InvalidTarget),
            ),
            header_entries(*final(request_headers)) == match outcome {
                Ok(plan) => host_entries(header_entries(*old(request_headers)), plan@.host),
                Err(_) => header_entries(*old(request_headers)),
            },
            header_systems(*final(request_headers)) == header_systems(*old(request_headers)),
    {
        let parsed = Target::parse(&reverse);
        match self.plan_reverse_proxy(server, health, inbound, parsed) {
            Ok(plan) => {
                set_host(request_headers, plan.host.clone());
                Ok(plan)
            },
            Err(e) => Err(e),
        }
    }

    /// Decides what becomes of a request that was routed to the location at
    /// `location_index`. The location is copied first, and the copy alone is
    /// worked on.
    pub fn deal_request(
        server: &ServerConfig,
        location_index: usize,
        health: &HealthSnapshot,
        inbound: &Scheme,
        request_headers: &mut webparse::HeaderMap,
    ) -> (outcome: Result<RequestAction, ProxyError>)
        requires
            location_index < server.location@.len(),
        ensures
            action_result_view(outcome) == dispatch_model(
                server@,
                location_index as int,
                health@,
                inbound@,
            ),
            header_entries(*final(request_headers)) == match outcome {
                Ok(RequestAction::Proxy(plan)) => host_entries(
                    header_entries(*old(request_headers)),
                    plan@.host,
                ),
                _ => header_entries(*old(request_headers)),
            },
            header_systems(*final(request_headers)) == header_systems(*old(request_headers)),
    {
        let location = server.location[location_index].clone();
        assert(server@.location[location_index as int] == location@);
        if let Some(configured) = &location.file_server {
            let mut file = configured.clone();
            if file.root.is_none() {
                file.root = clone_text_option(&server.root);
            }
            if file.prefix.as_str().is_empty() {
                file.set_prefix(location.rule.clone());
            }
            return Ok(RequestAction::ServeFile(file));
        }
        if let Some(reverse) = &location.reverse_proxy {
            return match location.deal_reverse_proxy(
                server,
                health,
                inbound,
                request_headers,
                reverse.clone(),
            ) {
                Ok(plan) => Ok(RequestAction::Proxy(plan)),
                Err(e) => Err(e),
            };
        }
        Err(ProxyError::ConfigurationError(ConfigDefect::NoHandler))
    }
}

/// Filling in the defaults of a file-serving handler a second time changes
/// nothing.
pub proof fn lemma_file_defaults_idempotent(
    file: FileServerModel,
    root: Option<Seq<char>>,
    rule: Seq<char>,
)
    ensures
        file_defaults(file_defaults(file, root, rule), root, rule) == file_defaults(
            file,
            root,
            rule,
        ),
{
}

/// What becomes of a request goes by the handler of its location: file
/// serving yields a file-serving action, whatever the proxy target; a proxy
/// target yields a plan or the failure of planning; no handler yields the
/// configuration error.
pub proof fn lemma_dispatch_by_handler(
    server: ServerModel,
    index: int,
    down: Seq<AddrModel>,
    inbound: SchemeModel,
)
    requires
        0 <= index < server.location.len(),
    ensures
        match handler_model(server.location[index]) {
            Handler::FileServing => dispatch_model(server, index, down, inbound) is Ok
                && dispatch_model(server, index, down, inbound)->Ok_0 is ServeFile,
            Handler::ReverseProxy => match dispatch_model(server, index, down, inbound) {
                Ok(action) => action is Proxy,
                Err(e) => e != ProxyError::ConfigurationError(ConfigDefect::NoHandler),
            },
            Handler::Unconfigured => dispatch_model(server, index, down, inbound) == Err::<
                RequestActionModel,
                ProxyError,
            >(ProxyError::ConfigurationError(ConfigDefect::NoHandler)),
        },
{
}

/// A location without file serving and without a proxy target fails every
/// request with a configuration error, whatever the upstreams, the health
/// of the backends and the request.
pub proof fn lemma_unconfigured_location_fails(
    server: ServerModel,
    index: int,
    down: Seq<AddrModel>,
    inbound: SchemeModel,
)
    requires
        0 <= index < server.location.len(),
    ensures
        (server.location[index].file_server is None && server.location[index].reverse_proxy
            is None) <==> dispatch_model(server, index, down, inbound) == Err::<
            RequestActionModel,
            ProxyError,
        >(ProxyError::ConfigurationError(ConfigDefect::NoHandler)),
{
}

} // verus!
