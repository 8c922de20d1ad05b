use wmproxy::headers::rewrite_response;
use wmproxy::headers::set_host;
use wmproxy::location::LocationConfig;
use wmproxy::server::ServerConfig;
use wmproxy::target::Scheme;
use wmproxy::upstream::BackendAddr;
use wmproxy::upstream::HealthSnapshot;

fn rule(tokens: &[&str]) -> Vec<String> {
    tokens.iter().map(|t| t.to_string()).collect()
}

fn value_of(headers: &webparse::HeaderMap, name: &str) -> Option<String> {
    headers.get_option_value(&name).and_then(|v| v.as_string())
}

fn response_headers() -> webparse::HeaderMap {
    let mut headers = webparse::HeaderMap::new();
    headers.insert("Content-Type".to_string(), "text/plain".to_string());
    headers.insert("X-Debug".to_string(), "trace-17".to_string());
    headers.insert("Server".to_string(), "backend".to_string());
    headers
}

fn names_of(headers: &webparse::HeaderMap) -> Vec<String> {
    headers.iter().map(|(name, _)| name.to_string()).collect()
}

#[test]
fn removal_rule_removes_and_is_idempotent() {
    let rules = vec![rule(&["-", "X-Debug"])];
    let mut headers = response_headers();
    rewrite_response(&mut headers, &rules);
    assert!(!headers.contains(&"X-Debug"));
    assert_eq!(headers.len(), 2);
    assert_eq!(value_of(&headers, "Content-Type").as_deref(), Some("text/plain"));
    assert_eq!(value_of(&headers, "Server").as_deref(), Some("backend"));
    let once = names_of(&headers);
    rewrite_response(&mut headers, &rules);
    assert_eq!(names_of(&headers), once);
    assert_eq!(headers.len(), 2);
    assert_eq!(value_of(&headers, "Server").as_deref(), Some("backend"));
}

#[test]
fn removal_of_an_absent_header_changes_nothing() {
    let rules = vec![rule(&["-", "X-Missing"])];
    let mut headers = response_headers();
    let before = names_of(&headers);
    rewrite_response(&mut headers, &rules);
    assert_eq!(names_of(&headers), before);
    assert_eq!(value_of(&headers, "X-Debug").as_deref(), Some("trace-17"));
}

#[test]
fn no_rules_no_change() {
    let mut headers = response_headers();
    let before = names_of(&headers);
    rewrite_response(&mut headers, &vec![]);
    assert_eq!(names_of(&headers), before);
    assert_eq!(value_of(&headers, "X-Debug").as_deref(), Some("trace-17"));
    assert_eq!(headers.len(), 3);
}

#[test]
fn rules_apply_in_configured_order() {
    let mut headers = response_headers();
    let add_then_remove = vec![rule(&["+", "X-Cache", "hit"]), rule(&["-", "X-Cache"])];
    rewrite_response(&mut headers, &add_then_remove);
    assert!(!headers.contains(&"X-Cache"));
    let remove_then_add = vec![rule(&["-", "X-Cache"]), rule(&["+", "X-Cache", "hit"])];
    rewrite_response(&mut headers, &remove_then_add);
    assert_eq!(value_of(&headers, "X-Cache").as_deref(), Some("hit"));
    assert_eq!(headers.len(), 4);
    assert_eq!(value_of(&headers, "Content-Type").as_deref(), Some("text/plain"));
}

#[test]
fn request_rules_do_not_touch_the_response() {
    let mut headers = response_headers();
    let rules = vec![rule(&["proxy", "-", "X-Debug"]), rule(&[]), rule(&["-"])];
    rewrite_response(&mut headers, &rules);
    assert_eq!(headers.len(), 3);
    assert_eq!(value_of(&headers, "X-Debug").as_deref(), Some("trace-17"));
}

#[test]
fn default_rule_fills_only_what_is_missing() {
    let mut headers = response_headers();
    let rules = vec![rule(&["?", "Server", "proxy"]), rule(&["?", "X-Frame", "deny"])];
    rewrite_response(&mut headers, &rules);
    assert_eq!(value_of(&headers, "Server").as_deref(), Some("backend"));
    assert_eq!(value_of(&headers, "X-Frame").as_deref(), Some("deny"));
}

#[test]
fn plan_rewrites_by_the_rules_of_its_location() {
    let server = ServerConfig::new(BackendAddr::new("127.0.0.1".to_string(), 80));
    let mut location = LocationConfig::new();
    location.headers = vec![rule(&["-", "X-Debug"]), rule(&["+", "Via", "wm"])];
    let mut request = webparse::HeaderMap::new();
    let plan = location
        .deal_reverse_proxy(
            &server,
            &HealthSnapshot::all_up(),
            &Scheme::Http,
            &mut request,
            "http://127.0.0.1:8080".to_string(),
        )
        .unwrap();
    let mut headers = response_headers();
    plan.rewrite_response(&mut headers);
    assert!(!headers.contains(&"X-Debug"));
    assert_eq!(value_of(&headers, "Via").as_deref(), Some("wm"));
    assert_eq!(headers.len(), 3);
}

#[test]
fn host_is_set_once() {
    let mut headers = webparse::HeaderMap::new();
    headers.insert("Accept".to_string(), "*/*".to_string());
    set_host(&mut headers, "svc".to_string());
    assert_eq!(headers.get_host().as_deref(), Some("svc"));
    assert_eq!(headers.len(), 2);
    set_host(&mut headers, "other".to_string());
    assert_eq!(headers.get_host().as_deref(), Some("other"));
    assert_eq!(headers.len(), 2);
    assert_eq!(value_of(&headers, "Accept").as_deref(), Some("*/*"));
}
