//! The decisions of the reverse-proxy handler: what to connect to and how,
//! taken before any connection is opened, and the order of the steps that
//! follow.

use vstd::prelude::*;
use crate::error::ConfigDefect;
use crate::error::ProxyError;
use crate::headers::every_rule_skipped;
use crate::headers::header_entries;
use crate::headers::header_systems;
use crate::headers::rewritten;
use crate::server::lemma_resolved_is_live;
use crate::server::resolve_model;
use crate::server::ResolveError;
use crate::target::connect_text;
use crate::target::decimal;
use crate::target::SchemeModel;
use crate::target::Target;
use crate::target::TargetModel;
use crate::upstream::AddrModel;
use crate::upstream::UpstreamModel;

verus! {

/// Everything the outbound leg of one request needs, decided up front.
#[derive(Debug)]
pub struct ProxyPlan {
    /// The descriptor to connect by: resolved, and with a scheme.
    pub target: Target,
    /// The value of the outbound `Host` header: the domain as the target
    /// text names it, before resolution.
    pub host: String,
    /// The address handed to the connection layer.
    pub connect: String,
    /// Whether the connection is wrapped in TLS.
    pub tls: bool,
    /// The location's header rules, for the response.
    pub headers: Vec<Vec<String>>,
}

/// Mathematical model of a [`ProxyPlan`].
pub struct PlanModel {
    pub target: TargetModel,
    pub host: Seq<char>,
    pub connect: Seq<char>,
    pub tls: bool,
    pub headers: Seq<Seq<Seq<char>>>,
}

impl View for ProxyPlan {
    type V = PlanModel;

    open spec fn view(&self) -> PlanModel {
        PlanModel {
            target: self.target@,
            host: self.host@,
            connect: self.connect@,
            tls: self.tls,
            headers: self.headers.deep_view(),
        }
    }
}

/// A descriptor after resolution: the backend's domain and port where the
/// name resolved, the descriptor as it was where it did not.
pub open spec fn resolved_target(
    target: TargetModel,
    resolution: Result<AddrModel, ResolveError>,
) -> TargetModel {
    match resolution {
        Ok(addr) => TargetModel {
            scheme: target.scheme,
            domain: Some(addr.host),
            port: Some(addr.port),
            path: target.path,
        },
        Err(_) => target,
    }
}

/// A descriptor with the inbound request's scheme where it has none.
pub open spec fn with_scheme(target: TargetModel, inbound: SchemeModel) -> TargetModel {
    if target.scheme == SchemeModel::Absent {
        TargetModel {
            scheme: inbound,
            domain: target.domain,
            port: target.port,
            path: target.path,
        }
    } else {
        target
    }
}

/// The plan for a parsed target, or the failure the request ends in.
pub open spec fn plan_model(
    upstreams: Seq<UpstreamModel>,
    down: Seq<AddrModel>,
    inbound: SchemeModel,
    rules: Seq<Seq<Seq<char>>>,
    parsed: Option<TargetModel>,
) -> Result<PlanModel, ProxyError> {
    if parsed is None || parsed->0.domain is None {
        Err(ProxyError::ConfigurationError(ConfigDefect::InvalidTarget))
    } else {
        let logical = parsed->0.domain->0;
        let target = with_scheme(
            resolved_target(parsed->0, resolve_model(upstreams, down, logical)),
            inbound,
        );
        match connect_text(target.domain, target.port) {
            None => Err(ProxyError::ConnectError),
            Some(connect) => Ok(
                PlanModel {
                    target,
                    host: logical,
                    connect,
                    tls: target.scheme != SchemeModel::Http,
                    headers: rules,
                },
            ),
        }
    }
}

/// Model of a plan or failure.
pub open spec fn plan_result_view(outcome: Result<ProxyPlan, ProxyError>) -> Result<
    PlanModel,
    ProxyError,
> {
    match outcome {
        Ok(plan) => Ok(plan@),
        Err(e) => Err(e),
    }
}

/// A target that cannot be parsed, or that names no domain, is an invalid
/// target, and nothing else is: every other failure of planning is a
/// connect error.
pub proof fn lemma_invalid_target(
    upstreams: Seq<UpstreamModel>,
    down: Seq<AddrModel>,
    inbound: SchemeModel,
    rules: Seq<Seq<Seq<char>>>,
    parsed: Option<TargetModel>,
)
    ensures
        (parsed is None || parsed->0.domain is None) <==> plan_model(
            upstreams,
            down,
            inbound,
            rules,
            parsed,
        ) == Err::<PlanModel, ProxyError>(
            ProxyError::ConfigurationError(ConfigDefect::InvalidTarget),
        ),
        plan_model(upstreams, down, inbound, rules, parsed) is Err ==> !(plan_model(
            upstreams,
            down,
            inbound,
            rules,
            parsed,
        )->Err_0 is TransportError),
{
}

/// A domain that is no upstream name passes through: the plan connects to
/// the domain and port as the target gives them, and only an absent scheme
/// is filled in.
pub proof fn lemma_literal_host_passes_through(
    upstreams: Seq<UpstreamModel>,
    down: Seq<AddrModel>,
    inbound: SchemeModel,
    rules: Seq<Seq<Seq<char>>>,
    target: TargetModel,
)
    requires
        target.domain is Some,
        resolve_model(upstreams, down, target.domain->0) is Err,
    ensures
        plan_model(upstreams, down, inbound, rules, Some(target)) is Ok <==> target.port is Some,
        target.port is Some ==> {
            let plan = plan_model(upstreams, down, inbound, rules, Some(target))->Ok_0;
            &&& plan.target == with_scheme(target, inbound)
            &&& plan.connect == target.domain->0 + seq![':'] + decimal(target.port->0 as nat)
            &&& plan.host == target.domain->0
        },
        target.port is Some && target.scheme != SchemeModel::Absent ==> plan_model(
            upstreams,
            down,
            inbound,
            rules,
            Some(target),
        )->Ok_0.target == target,
{
}

/// A domain that is an upstream name with a live backend is replaced by
/// that backend: the plan connects to it, the backend is not down, and the
/// `Host` header still carries the name.
pub proof fn lemma_named_upstream_is_resolved(
    upstreams: Seq<UpstreamModel>,
    down: Seq<AddrModel>,
    inbound: SchemeModel,
    rules: Seq<Seq<Seq<char>>>,
    target: TargetModel,
)
    requires
        target.domain is Some,
        resolve_model(upstreams, down, target.domain->0) is Ok,
    ensures
        plan_model(upstreams, down, inbound, rules, Some(target)) is Ok,
        ({
            let backend = resolve_model(upstreams, down, target.domain->0)->Ok_0;
            let plan = plan_model(upstreams, down, inbound, rules, Some(target))->Ok_0;
            &&& !down.contains(backend)
            &&& plan.target.domain == Some(backend.host)
            &&& plan.target.port == Some(backend.port)
            &&& plan.connect == backend.host + seq![':'] + decimal(backend.port as nat)
            &&& plan.host == target.domain->0
        }),
{
    lemma_resolved_is_live(upstreams, down, target.domain->0);
}

/// A plan uses TLS exactly when its scheme is not plain `http`, and its
/// scheme is the target's own where the target has one, the inbound
/// request's where it has none.
pub proof fn lemma_scheme_of_plan(
    upstreams: Seq<UpstreamModel>,
    down: Seq<AddrModel>,
    inbound: SchemeModel,
    rules: Seq<Seq<Seq<char>>>,
    target: TargetModel,
)
    requires
        plan_model(upstreams, down, inbound, rules, Some(target)) is Ok,
    ensures
        ({
            let plan = plan_model(upstreams, down, inbound, rules, Some(target))->Ok_0;
            &&& plan.tls == (plan.target.scheme != SchemeModel::Http)
            &&& plan.target.scheme == if target.scheme == SchemeModel::Absent {
                inbound
            } else {
                target.scheme
            }
            &&& plan.headers == rules
        }),
{
}

/// Where the outbound leg of a request stands.
#[derive(Debug, Clone, Copy, PartialEq, Eq, Structural)]
pub enum ProxyState {
    /// Planned, nothing opened yet.
    Ready,
    /// Waiting for the transport connection.
    Connecting,
    /// Waiting for the client on top of the connection (for TLS, the
    /// handshake).
    Establishing,
    /// Request sent, waiting for the one response.
    Forwarding,
    /// Over: answered or failed.
    Closed,
}

/// What the connection layer reports back.
#[derive(Debug, Clone, Copy, PartialEq, Eq, Structural)]
pub enum ProxyEvent {
    /// The request is to be handled.
    Begin,
    /// The transport connection stands.
    Connected,
    /// The client is ready to send.
    ClientReady,
    /// The response has arrived in full.
    Responded,
    /// The step that was under way failed.
    Failed,
}

/// What the driver of the exchange does next.
#[derive(Debug)]
pub enum ProxyAction {
    /// Open a transport connection to the address.
    Connect(String),
    /// Use the connection as it is, in plain text.
    WrapPlain,
    /// Shake hands in TLS over the connection, by the descriptor.
    Handshake(Target),
    /// Send the request and wait for one response.
    Forward,
    /// Rewrite the response's headers by the plan and return it.
    Reply,
    /// Release the connection and return the failure.
    Fail(ProxyError),
    /// Nothing: the exchange is over.
    Idle,
}

/// Mathematical model of a [`ProxyAction`].
pub enum ActionModel {
    Connect(Seq<char>),
    WrapPlain,
    Handshake(TargetModel),
    Forward,
    Reply,
    Fail(ProxyError),
    Idle,
}

impl View for ProxyAction {
    type V = ActionModel;

    open spec fn view(&self) -> ActionModel {
        match self {
            ProxyAction::Connect(address) => ActionModel::Connect(address@),
            ProxyAction::WrapPlain => ActionModel::WrapPlain,
            ProxyAction::Handshake(target) => ActionModel::Handshake(target@),
            ProxyAction::Forward => ActionModel::Forward,
            ProxyAction::Reply => ActionModel::Reply,
            ProxyAction::Fail(e) => ActionModel::Fail(*e),
            ProxyAction::Idle => ActionModel::Idle,
        }
    }
}

/// The state after an event.
pub open spec fn next_state(state: ProxyState, event: ProxyEvent) -> ProxyState {
    match (state, event) {
        (ProxyState::Ready, ProxyEvent::Begin) => ProxyState::Connecting,
        (ProxyState::Connecting, ProxyEvent::Connected) => ProxyState::Establishing,
        (ProxyState::Establishing, ProxyEvent::ClientReady) => ProxyState::Forwarding,
        _ => ProxyState::Closed,
    }
}

/// The action an event calls for. An event that the state does not wait for
/// counts as the failure of the step under way.
pub open spec fn next_action(plan: PlanModel, state: ProxyState, event: ProxyEvent) -> ActionModel {
    match (state, event) {
        (ProxyState::Ready, ProxyEvent::Begin) => ActionModel::Connect(plan.connect),
        (ProxyState::Connecting, ProxyEvent::Connected) => if plan.tls {
            ActionModel::Handshake(plan.target)
        } else {
            ActionModel::WrapPlain
        },
        (ProxyState::Establishing, ProxyEvent::ClientReady) => ActionModel::Forward,
        (ProxyState::Forwarding, ProxyEvent::Responded) => ActionModel::Reply,
        (ProxyState::Forwarding, _) => ActionModel::Fail(ProxyError::TransportError),
        (ProxyState::Closed, _) => ActionModel::Idle,
        _ => ActionModel::Fail(ProxyError::ConnectError),
    }
}

impl ProxyPlan {
    /// One step of the exchange: the state after the event, and what to do.
    pub fn step(&self, state: ProxyState, event: ProxyEvent) -> (next: (ProxyState, ProxyAction))
        ensures
            next.0 == next_state(state, event),
            next.1@ == next_action(self@, state, event),
    {
        match state {
            ProxyState::Ready => match event {
                ProxyEvent::Begin => (
                    ProxyState::Connecting,
                    ProxyAction::Connect(self.connect.clone()),
                ),
                _ => (ProxyState::Closed, ProxyAction::Fail(ProxyError::ConnectError)),
            },
            ProxyState::Connecting => match event {
                ProxyEvent::Connected => if self.tls {
                    (ProxyState::Establishing, ProxyAction::Handshake(self.target.clone()))
                } else {
                    (ProxyState::Establishing, ProxyAction::WrapPlain)
                },
                _ => (ProxyState::Closed, ProxyAction::Fail(ProxyError::ConnectError)),
            },
            ProxyState::Establishing => match event {
                ProxyEvent::ClientReady => (ProxyState::Forwarding, ProxyAction::Forward),
                _ => (ProxyState::Closed, ProxyAction::Fail(ProxyError::ConnectError)),
            },
            ProxyState::Forwarding => match event {
                ProxyEvent::Responded => (ProxyState::Closed, ProxyAction::Reply),
                _ => (ProxyState::Closed, ProxyAction::Fail(ProxyError::TransportError)),
            },
            ProxyState::Closed => (ProxyState::Closed, ProxyAction::Idle),
        }
    }

    /// Rewrites the headers of the received response by the plan's rules,
    /// in their order.
    pub fn rewrite_response(&self, headers: &mut webparse::HeaderMap)
        ensures
            header_entries(*final(headers)) == rewritten(
                header_entries(*old(headers)),
                header_systems(*old(headers)),
                self@.headers,
            ),
            header_systems(*final(headers)) == header_systems(*old(headers)),
            every_rule_skipped(self@.headers) ==> header_entries(*final(headers))
                == header_entries(*old(headers)),
    {
        crate::headers::rewrite_response(headers, &self.headers);
    }
}

/// The state an exchange is in after a series of events.
pub open spec fn run_state(state: ProxyState, events: Seq<ProxyEvent>) -> ProxyState
    decreases events.len(),
{
    if events.len() == 0 {
        state
    } else {
        run_state(next_state(state, events[0]), events.drop_first())
    }
}

/// How many connections a series of events has the driver open.
pub open spec fn connections(plan: PlanModel, state: ProxyState, events: Seq<ProxyEvent>) -> nat
    decreases events.len(),
{
    if events.len() == 0 {
        0
    } else {
        let rest = connections(plan, next_state(state, events[0]), events.drop_first());
        if next_action(plan, state, events[0]) is Connect {
            1 + rest
        } else {
            rest
        }
    }
}

/// How many times a series of events has the driver end the request, with a
/// response or with a failure.
pub open spec fn outcomes(plan: PlanModel, state: ProxyState, events: Seq<ProxyEvent>) -> nat
    decreases events.len(),
{
    if events.len() == 0 {
        0
    } else {
        let rest = outcomes(plan, next_state(state, events[0]), events.drop_first());
        let action = next_action(plan, state, events[0]);
        if action is Reply || action is Fail {
            1 + rest
        } else {
            rest
        }
    }
}

/// How far an exchange has come.
pub open spec fn progress(state: ProxyState) -> nat {
    match state {
        ProxyState::Ready => 0,
        ProxyState::Connecting => 1,
        ProxyState::Establishing => 2,
        ProxyState::Forwarding => 3,
        ProxyState::Closed => 4,
    }
}

/// Every event moves an exchange that is not over strictly forward, and one
/// that is over stays so.
pub proof fn lemma_step_progress(state: ProxyState, event: ProxyEvent)
    ensures
        state != ProxyState::Closed ==> progress(next_state(state, event)) > progress(state),
        state == ProxyState::Closed ==> next_state(state, event) == ProxyState::Closed,
{
}

/// Whatever the events, an exchange opens at most one connection, and none
/// once it has left its first state: there is no retry.
pub proof fn lemma_single_connection(plan: PlanModel, state: ProxyState, events: Seq<ProxyEvent>)
    ensures
        connections(plan, state, events) <= 1,
        state != ProxyState::Ready ==> connections(plan, state, events) == 0,
    decreases events.len(),
{
    if events.len() > 0 {
        lemma_single_connection(plan, next_state(state, events[0]), events.drop_first());
    }
}

/// Whatever the events, a request ends at most once, and an exchange that
/// is over ends nothing more.
pub proof fn lemma_single_outcome(plan: PlanModel, state: ProxyState, events: Seq<ProxyEvent>)
    ensures
        outcomes(plan, state, events) <= 1,
        state == ProxyState::Closed ==> outcomes(plan, state, events) == 0,
    decreases events.len(),
{
    if events.len() > 0 {
        lemma_single_outcome(plan, next_state(state, events[0]), events.drop_first());
    }
}

/// After four events an exchange is over, whatever they were; by then the
/// request has ended exactly once.
pub proof fn lemma_exchange_ends(plan: PlanModel, state: ProxyState, events: Seq<ProxyEvent>)
    requires
        events.len() + progress(state) >= 4,
    ensures
        run_state(state, events) == ProxyState::Closed,
        state != ProxyState::Closed ==> outcomes(plan, state, events) == 1,
    decreases events.len(),
{
    if events.len() > 0 {
        lemma_step_progress(state, events[0]);
        lemma_exchange_ends(plan, next_state(state, events[0]), events.drop_first());
        lemma_single_outcome(plan, next_state(state, events[0]), events.drop_first());
    }
}

} // verus!
