use reader_proxy::error::FetchError;
use reader_proxy::session::{check_upstream_status, raw_html_outcome, ListenerStart, ProxyState};
use reader_proxy::target::TargetUrl;

fn page() -> TargetUrl {
    TargetUrl::parse("https://example.com/blog/post").unwrap()
}

#[test]
fn starting_twice_gives_one_port() {
    let mut state = ProxyState::default();
    let first = state.start_listener(5000);
    let second = state.start_listener(6000);
    assert_eq!(first, ListenerStart { port: 5000, spawn: true });
    assert_eq!(second, ListenerStart { port: 5000, spawn: false });
    assert_eq!(state.port, Some(5000));
    assert_eq!(state.proxy_port(), 5000);
}

#[test]
fn auth_flow_asks_then_sends_credentials() {
    let mut state = ProxyState::new(page(), false);
    let target = page();
    assert_eq!(state.credentials_for_url(&target), None);
    assert_eq!(
        check_upstream_status(401, &target),
        Err(FetchError::AuthRequired("https://example.com".to_string()))
    );
    state.set_credentials("https://example.com".to_string(), "u".to_string(), "p".to_string());
    assert_eq!(
        state.credentials_for_url(&target),
        Some(("u".to_string(), "p".to_string()))
    );
    assert_eq!(check_upstream_status(200, &target), Ok(()));
}

#[test]
fn raw_html_reports_auth_required() {
    let target = page();
    assert_eq!(
        raw_html_outcome(401, &target, "denied".to_string()),
        Err(FetchError::AuthRequired("https://example.com".to_string()))
    );
    assert_eq!(
        raw_html_outcome(200, &target, "<html></html>".to_string()),
        Ok("<html></html>".to_string())
    );
}

#[test]
fn credentials_are_replaced_and_cleared() {
    let mut state = ProxyState::default();
    state.set_credentials("https://a.example".to_string(), "u1".to_string(), "p1".to_string());
    state.set_credentials("https://b.example".to_string(), "u2".to_string(), "p2".to_string());
    state.set_credentials("https://a.example".to_string(), "u3".to_string(), "p3".to_string());
    assert_eq!(
        state.credentials_for("https://a.example"),
        Some(("u3".to_string(), "p3".to_string()))
    );
    assert_eq!(state.auth_credentials.len(), 2);
    state.clear_credentials("https://a.example");
    assert_eq!(state.credentials_for("https://a.example"), None);
    assert_eq!(
        state.credentials_for("https://b.example"),
        Some(("u2".to_string(), "p2".to_string()))
    );
    assert_eq!(state.credentials_for("https://b.example:8443"), None);
}

#[test]
fn default_state_points_at_localhost() {
    let state = ProxyState::default();
    assert_eq!(state.base_url, TargetUrl::parse("http://localhost").unwrap());
    assert_eq!(state.port, None);
    assert_eq!(state.proxy_port(), 3000);
    assert!(!state.use_relative_paths);
}

#[test]
fn base_url_follows_navigation() {
    let mut state = ProxyState::default();
    state.set_base_url(page());
    assert_eq!(state.base_url.href, "https://example.com/blog/post");
    assert_eq!(state.base_url.origin(), "https://example.com");
}

#[test]
fn urls_resolve_against_a_page() {
    let p = page();
    assert_eq!(p.join("../x?y=1").unwrap().href, "https://example.com/x?y=1");
    assert_eq!(p.host_or_localhost(), "example.com");
    let file = TargetUrl::parse("file:///tmp/a.html").unwrap();
    assert_eq!(file.origin(), "file://localhost");
}
