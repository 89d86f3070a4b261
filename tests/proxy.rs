use reader_proxy::headers::{fetch_request_headers, login_request_headers, proxy_request_headers};
use reader_proxy::proxy::{
    auth_required_page, forward_request_header, forward_response_header, is_resource_path,
    resource_target, response_plan, route_page, PageRoute, ResponsePlan,
};
use reader_proxy::target::TargetUrl;

fn page() -> TargetUrl {
    TargetUrl::parse("https://example.com/blog/post").unwrap()
}

#[test]
fn asset_paths_are_resources() {
    assert!(is_resource_path("static/site.css"));
    assert!(is_resource_path("app.js"));
    assert!(is_resource_path("fonts/a"));
    assert!(is_resource_path("images/logo"));
    assert!(is_resource_path("font.woff2"));
    assert!(!is_resource_path("blog/next"));
    assert!(!is_resource_path("index.html"));
}

#[test]
fn assets_come_from_the_host_root() {
    assert_eq!(
        route_page(&page(), "assets/app.css"),
        PageRoute::Resource("https://example.com/assets/app.css".to_string())
    );
}

#[test]
fn pages_resolve_against_the_base() {
    match route_page(&page(), "blog/next") {
        PageRoute::Page(t) => assert_eq!(t.href, "https://example.com/blog/blog/next"),
        other => panic!("unexpected route {:?}", other),
    }
}

#[test]
fn resource_parameter_is_decoded_and_parsed() {
    let t = resource_target(Some("https%3A%2F%2Fexample.com%2Fimg%2Fa.png")).unwrap();
    assert_eq!(t.href, "https://example.com/img/a.png");
    assert_eq!(t.origin(), "https://example.com");
    assert_eq!(resource_target(None), Err(400));
    assert_eq!(resource_target(Some("not%20a%20url")), Err(400));
    assert_eq!(resource_target(Some("https%3A%2F%2Fexample.com%2F%FF")), Err(400));
}

#[test]
fn inbound_credentials_are_not_forwarded() {
    assert!(!forward_request_header("host"));
    assert!(!forward_request_header("connection"));
    assert!(!forward_request_header("authorization"));
    assert!(forward_request_header("cookie"));
    assert!(forward_request_header("accept"));
}

#[test]
fn framing_headers_are_stripped() {
    assert!(!forward_response_header("content-length"));
    assert!(!forward_response_header("content-security-policy"));
    assert!(!forward_response_header("x-frame-options"));
    assert!(!forward_response_header("transfer-encoding"));
    assert!(forward_response_header("content-type"));
    assert!(forward_response_header("set-cookie"));
}

#[test]
fn non_html_responses_stream_through() {
    assert_eq!(response_plan(200, Some("image/png")), ResponsePlan::Stream);
    assert_eq!(response_plan(200, None), ResponsePlan::Stream);
    assert_eq!(response_plan(404, Some("text/html; charset=utf-8")), ResponsePlan::Rewrite);
    assert_eq!(response_plan(401, Some("image/png")), ResponsePlan::AuthPage);
}

#[test]
fn auth_page_names_the_origin() {
    let p = auth_required_page("https://o'brien.example");
    assert!(p.starts_with("<!DOCTYPE html>"));
    assert!(p.contains("type: 'PROXY_AUTH_REQUIRED'"));
    assert!(p.contains("domain: 'https://o\\'brien.example'"));
    assert!(p.contains("Authentication required for https://o'brien.example\n"));
    assert!(p.ends_with("</html>"));
}

#[test]
fn proxy_requests_carry_a_browser_identity() {
    let h = proxy_request_headers(true, "https://example.com/blog/post", "cdn.example.org");
    assert_eq!(h.len(), 8);
    assert_eq!(h[1], ("accept".to_string(), "text/html,application/xhtml+xml,application/xml;q=0.9,image/webp,*/*;q=0.8".to_string()));
    assert_eq!(h[6], ("referer".to_string(), "https://example.com/blog/post".to_string()));
    assert_eq!(h[7], ("host".to_string(), "cdn.example.org".to_string()));
    let r = proxy_request_headers(false, "https://example.com/", "example.com");
    assert_eq!(r.len(), 7);
    assert_eq!(r[1], ("accept".to_string(), "*/*".to_string()));
}

#[test]
fn login_requests_name_their_origin() {
    let url = TargetUrl::parse("https://example.com/account/login?next=/").unwrap();
    let h = login_request_headers(&url);
    assert_eq!(h.len(), fetch_request_headers().len() + 4);
    assert!(h.contains(&("origin".to_string(), "https://example.com".to_string())));
    assert!(h.contains(&("host".to_string(), "example.com".to_string())));
    assert!(h.contains(&("referer".to_string(), "https://example.com/account/login?next=/".to_string())));
    assert!(!h.iter().any(|(n, _)| n.starts_with("sec-fetch")));
}
