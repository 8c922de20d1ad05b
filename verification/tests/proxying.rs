use wmproxy::error::ConfigDefect;
use wmproxy::error::ProxyError;
use wmproxy::location::LocationConfig;
use wmproxy::location::RequestAction;
use wmproxy::proxy::ProxyAction;
use wmproxy::proxy::ProxyEvent;
use wmproxy::proxy::ProxyPlan;
use wmproxy::proxy::ProxyState;
use wmproxy::server::ServerConfig;
use wmproxy::target::Scheme;
use wmproxy::target::Target;
use wmproxy::upstream::BackendAddr;
use wmproxy::upstream::HealthSnapshot;
use wmproxy::upstream::UpstreamConfig;

fn addr(host: &str, port: u16) -> BackendAddr {
    BackendAddr::new(host.to_string(), port)
}

fn server_with_svc() -> ServerConfig {
    let mut server = ServerConfig::new(addr("127.0.0.1", 80));
    server.upstream.push(UpstreamConfig::new(
        "svc".to_string(),
        vec![addr("10.0.0.1", 8080), addr("10.0.0.2", 8081)],
    ));
    server
}

fn plan_for(server: &ServerConfig, health: &HealthSnapshot, target: &str) -> Result<ProxyPlan, ProxyError> {
    let mut headers = webparse::HeaderMap::new();
    LocationConfig::new().deal_reverse_proxy(
        server,
        health,
        &Scheme::Http,
        &mut headers,
        target.to_string(),
    )
}

#[test]
fn target_text_is_parsed() {
    let target = Target::parse(&"http://127.0.0.1:8080".to_string()).unwrap();
    assert!(target.scheme.is_http());
    assert_eq!(target.domain.as_deref(), Some("127.0.0.1"));
    assert_eq!(target.port, Some(8080));
    assert_eq!(target.path, "/");
    let named = Target::parse(&"https://svc".to_string()).unwrap();
    assert!(named.scheme.is_https());
    assert!(!named.scheme.is_http());
    assert!(!named.scheme.is_absent());
    assert_eq!(named.domain.as_deref(), Some("svc"));
    assert_eq!(named.port, Some(443));
    let deep = Target::parse(&"http://host.example:81/a/b".to_string()).unwrap();
    assert_eq!(deep.domain.as_deref(), Some("host.example"));
    assert_eq!(deep.port, Some(81));
    assert_eq!(deep.path, "/a/b");
}

#[test]
fn other_schemes_are_told_apart() {
    let ws = Target::parse(&"ws://h".to_string()).unwrap();
    assert!(matches!(ws.scheme, Scheme::Ws));
    let wss = Target::parse(&"wss://h".to_string()).unwrap();
    assert!(matches!(wss.scheme, Scheme::Wss));
    let ftp = Target::parse(&"ftp://h".to_string()).unwrap();
    assert!(matches!(ftp.scheme, Scheme::Ftp));
    assert_eq!(ftp.port, Some(21));
    let other = Target::parse(&"gopher://h".to_string()).unwrap();
    match other.scheme {
        Scheme::Extension(name) => assert_eq!(name, "gopher"),
        scheme => panic!("{:?}", scheme),
    }
    let path_only = Target::parse(&"/only/path".to_string()).unwrap();
    assert!(path_only.scheme.is_absent());
    assert!(path_only.domain.is_none());
}

#[test]
fn connect_address_is_domain_colon_port() {
    let mut target = Target::parse(&"http://127.0.0.1:8080".to_string()).unwrap();
    assert_eq!(target.get_connect_url().as_deref(), Some("127.0.0.1:8080"));
    target.port = Some(0);
    assert_eq!(target.get_connect_url().as_deref(), Some("127.0.0.1:0"));
    target.port = Some(65535);
    assert_eq!(target.get_connect_url().as_deref(), Some("127.0.0.1:65535"));
    target.port = Some(907);
    target.domain = Some("svc".to_string());
    assert_eq!(target.get_connect_url().as_deref(), Some("svc:907"));
    target.port = None;
    assert_eq!(target.get_connect_url(), None);
    target.port = Some(1);
    target.domain = None;
    assert_eq!(target.get_connect_url(), None);
}

#[test]
fn clone_of_a_target_keeps_every_part() {
    let target = Target::parse(&"https://h.example:444/p".to_string()).unwrap();
    let copy = target.clone();
    assert!(copy.scheme.is_https());
    assert_eq!(copy.domain, target.domain);
    assert_eq!(copy.port, Some(444));
    assert_eq!(copy.path, "/p");
}

#[test]
fn literal_host_passes_through() {
    let server = server_with_svc();
    let health = HealthSnapshot::all_up();
    let literal = "203.0.113.5:9443".to_string();
    assert!(server.get_upstream_addr(&literal, &health).is_err());
    assert!(server.get_upstream_addr(&"203.0.113.5".to_string(), &health).is_err());
    let plan = plan_for(&server, &health, "https://203.0.113.5:9443").unwrap();
    assert_eq!(plan.connect, "203.0.113.5:9443");
    assert!(plan.tls);
    assert!(plan.target.scheme.is_https());
    assert_eq!(plan.target.domain.as_deref(), Some("203.0.113.5"));
    assert_eq!(plan.target.port, Some(9443));
    assert_eq!(plan.host, "203.0.113.5");
    let (state, action) = plan.step(ProxyState::Ready, ProxyEvent::Begin);
    assert_eq!(state, ProxyState::Connecting);
    match action {
        ProxyAction::Connect(address) => assert_eq!(address, "203.0.113.5:9443"),
        other => panic!("{:?}", other),
    }
    let (state, action) = plan.step(state, ProxyEvent::Connected);
    assert_eq!(state, ProxyState::Establishing);
    match action {
        ProxyAction::Handshake(target) => {
            assert_eq!(target.domain.as_deref(), Some("203.0.113.5"));
            assert_eq!(target.port, Some(9443));
        }
        other => panic!("{:?}", other),
    }
}

#[test]
fn named_upstream_is_resolved() {
    let server = server_with_svc();
    let mut health = HealthSnapshot::all_up();
    let plan = plan_for(&server, &health, "http://svc").unwrap();
    assert_eq!(plan.connect, "10.0.0.1:8080");
    assert!(!plan.tls);
    assert_eq!(plan.target.domain.as_deref(), Some("10.0.0.1"));
    assert_eq!(plan.target.port, Some(8080));
    health.mark_down(addr("10.0.0.1", 8080));
    let plan = plan_for(&server, &health, "https://svc:1234").unwrap();
    assert_eq!(plan.connect, "10.0.0.2:8081");
    assert!(plan.tls);
    health.mark_down(addr("10.0.0.2", 8081));
    let plan = plan_for(&server, &health, "http://svc:1234").unwrap();
    assert_eq!(plan.connect, "svc:1234");
}

#[test]
fn host_header_names_the_logical_domain() {
    let server = server_with_svc();
    let health = HealthSnapshot::all_up();
    let mut headers = webparse::HeaderMap::new();
    headers.insert("Accept".to_string(), "*/*".to_string());
    headers.insert("Host".to_string(), "public.example".to_string());
    let plan = LocationConfig::new()
        .deal_reverse_proxy(&server, &health, &Scheme::Http, &mut headers, "http://svc".to_string())
        .unwrap();
    assert_eq!(plan.host, "svc");
    assert_eq!(headers.get_host().as_deref(), Some("svc"));
    assert_eq!(headers.len(), 2);
    assert!(headers.contains(&"Accept"));
}

#[test]
fn failed_plan_leaves_the_request_headers() {
    let server = server_with_svc();
    let health = HealthSnapshot::all_up();
    let mut headers = webparse::HeaderMap::new();
    headers.insert("Host".to_string(), "public.example".to_string());
    let outcome = LocationConfig::new().deal_reverse_proxy(
        &server,
        &health,
        &Scheme::Http,
        &mut headers,
        "".to_string(),
    );
    assert!(outcome.is_err());
    assert_eq!(headers.get_host().as_deref(), Some("public.example"));
    assert_eq!(headers.len(), 1);
}

#[test]
fn empty_or_malformed_target_is_invalid() {
    let server = server_with_svc();
    let health = HealthSnapshot::all_up();
    let invalid = ProxyError::ConfigurationError(ConfigDefect::InvalidTarget);
    for text in ["", " ", "/path/only", "http:/svc", "http//svc", "svc", "://svc", "http://a b", "http://h:99999", "http://h:x"] {
        let outcome = plan_for(&server, &health, text);
        assert_eq!(outcome.err(), Some(invalid), "{:?}", text);
    }
    assert_eq!(invalid.message(), "invalid target");
    assert!(Target::parse(&"".to_string()).is_none());
}

#[test]
fn missing_scheme_is_inherited_from_the_request() {
    let server = server_with_svc();
    let health = HealthSnapshot::all_up();
    let bare = || Target {
        scheme: Scheme::Absent,
        domain: Some("svc".to_string()),
        port: Some(0),
        path: "/".to_string(),
    };
    let location = LocationConfig::new();
    let plain = location.plan_reverse_proxy(&server, &health, &Scheme::Http, Some(bare())).unwrap();
    assert!(plain.target.scheme.is_http());
    assert!(!plain.tls);
    assert_eq!(plain.connect, "10.0.0.1:8080");
    let secure =
        location.plan_reverse_proxy(&server, &health, &Scheme::Https, Some(bare())).unwrap();
    assert!(secure.target.scheme.is_https());
    assert!(secure.tls);
    let mut written = bare();
    written.scheme = Scheme::Https;
    let kept = location.plan_reverse_proxy(&server, &health, &Scheme::Http, Some(written)).unwrap();
    assert!(kept.target.scheme.is_https());
    assert!(kept.tls);
}

#[test]
fn plan_without_connect_address_is_a_connect_error() {
    let server = ServerConfig::new(addr("127.0.0.1", 80));
    let health = HealthSnapshot::all_up();
    let target = Target {
        scheme: Scheme::Http,
        domain: Some("host".to_string()),
        port: None,
        path: "/".to_string(),
    };
    let location = LocationConfig::new();
    let outcome = location.plan_reverse_proxy(&server, &health, &Scheme::Http, Some(target));
    assert_eq!(outcome.err(), Some(ProxyError::ConnectError));
    let none = location.plan_reverse_proxy(&server, &health, &Scheme::Http, None);
    assert_eq!(none.err(), Some(ProxyError::ConfigurationError(ConfigDefect::InvalidTarget)));
    let no_domain = Target { scheme: Scheme::Http, domain: None, port: Some(1), path: "/".to_string() };
    let outcome = location.plan_reverse_proxy(&server, &health, &Scheme::Http, Some(no_domain));
    assert_eq!(outcome.err(), Some(ProxyError::ConfigurationError(ConfigDefect::InvalidTarget)));
}

#[test]
fn plan_carries_the_rules_of_the_location() {
    let server = server_with_svc();
    let health = HealthSnapshot::all_up();
    let mut location = LocationConfig::new();
    location.headers = vec![vec!["-".to_string(), "X-Debug".to_string()], vec![]];
    let mut headers = webparse::HeaderMap::new();
    let plan = location
        .deal_reverse_proxy(&server, &health, &Scheme::Http, &mut headers, "http://svc".to_string())
        .unwrap();
    assert_eq!(plan.headers, location.headers);
    let copy = location.clone();
    assert_eq!(copy.headers, location.headers);
    assert_eq!(copy.rule, location.rule);
}

#[test]
fn dispatch_to_a_proxy_location() {
    let mut server = server_with_svc();
    let mut location = LocationConfig::new();
    location.rule = "/api".to_string();
    location.reverse_proxy = Some("http://svc".to_string());
    server.location.push(location);
    let health = HealthSnapshot::all_up();
    let mut headers = webparse::HeaderMap::new();
    let outcome = LocationConfig::deal_request(&server, 0, &health, &Scheme::Https, &mut headers);
    match outcome {
        Ok(RequestAction::Proxy(plan)) => {
            assert_eq!(plan.connect, "10.0.0.1:8080");
            assert_eq!(plan.host, "svc");
            assert!(!plan.tls);
        }
        other => panic!("{:?}", other),
    }
    assert_eq!(headers.get_host().as_deref(), Some("svc"));
    server.location[0].reverse_proxy = Some("".to_string());
    let outcome = LocationConfig::deal_request(&server, 0, &health, &Scheme::Https, &mut headers);
    assert_eq!(outcome.err(), Some(ProxyError::ConfigurationError(ConfigDefect::InvalidTarget)));
}

fn plain_plan() -> ProxyPlan {
    plan_for(&server_with_svc(), &HealthSnapshot::all_up(), "http://svc").unwrap()
}

#[test]
fn plain_exchange_runs_its_steps_in_order() {
    let plan = plain_plan();
    let (state, action) = plan.step(ProxyState::Ready, ProxyEvent::Begin);
    assert_eq!(state, ProxyState::Connecting);
    assert!(matches!(action, ProxyAction::Connect(ref a) if a == "10.0.0.1:8080"));
    let (state, action) = plan.step(state, ProxyEvent::Connected);
    assert_eq!(state, ProxyState::Establishing);
    assert!(matches!(action, ProxyAction::WrapPlain));
    let (state, action) = plan.step(state, ProxyEvent::ClientReady);
    assert_eq!(state, ProxyState::Forwarding);
    assert!(matches!(action, ProxyAction::Forward));
    let (state, action) = plan.step(state, ProxyEvent::Responded);
    assert_eq!(state, ProxyState::Closed);
    assert!(matches!(action, ProxyAction::Reply));
    let (state, action) = plan.step(state, ProxyEvent::Begin);
    assert_eq!(state, ProxyState::Closed);
    assert!(matches!(action, ProxyAction::Idle));
}

#[test]
fn failures_end_the_exchange_without_retry() {
    let plan = plain_plan();
    let connect = ProxyAction::Fail(ProxyError::ConnectError);
    let transport = ProxyAction::Fail(ProxyError::TransportError);
    let cases = [
        (ProxyState::Ready, ProxyEvent::Failed, &connect),
        (ProxyState::Ready, ProxyEvent::Connected, &connect),
        (ProxyState::Connecting, ProxyEvent::Failed, &connect),
        (ProxyState::Connecting, ProxyEvent::Begin, &connect),
        (ProxyState::Establishing, ProxyEvent::Failed, &connect),
        (ProxyState::Establishing, ProxyEvent::Responded, &connect),
        (ProxyState::Forwarding, ProxyEvent::Failed, &transport),
        (ProxyState::Forwarding, ProxyEvent::Begin, &transport),
    ];
    for (state, event, expected) in cases {
        let (next, action) = plan.step(state, event);
        assert_eq!(next, ProxyState::Closed);
        match (&action, expected) {
            (ProxyAction::Fail(got), ProxyAction::Fail(want)) => assert_eq!(got, want),
            other => panic!("{:?}", other),
        }
        let (after, idle) = plan.step(next, ProxyEvent::Begin);
        assert_eq!(after, ProxyState::Closed);
        assert!(matches!(idle, ProxyAction::Idle));
    }
}

#[test]
fn every_failure_has_its_message() {
    assert_eq!(ProxyError::ConfigurationError(ConfigDefect::NoHandler).message(), "no handler");
    assert_eq!(
        ProxyError::ConfigurationError(ConfigDefect::InvalidTarget).message(),
        "invalid target"
    );
    assert_eq!(ProxyError::ConnectError.message(), "connect error");
    assert_eq!(ProxyError::TransportError.message(), "transport error");
    assert!(!ProxyError::ConnectError.is_configuration());
    assert!(!ProxyError::TransportError.is_configuration());
}
