use reader_proxy::rewrite::RewriteContext;
use reader_proxy::script::listener_script;
use reader_proxy::session::ProxyState;
use reader_proxy::target::TargetUrl;

fn page() -> TargetUrl {
    TargetUrl::parse("https://example.com/blog/post").unwrap()
}

fn relative() -> RewriteContext {
    RewriteContext { target: page(), prefix: String::new() }
}

#[test]
fn domain_root_src_goes_through_the_proxy() {
    assert_eq!(
        relative().rewrite_src("/img/a.png"),
        Some("/proxy?url=https%3A%2F%2Fexample.com%2Fimg%2Fa.png".to_string())
    );
}

#[test]
fn relative_navigation_link_keeps_its_directory() {
    assert_eq!(relative().rewrite_nav_href("b.html"), Some("blog/b.html".to_string()));
}

#[test]
fn domain_root_navigation_link_drops_its_slash() {
    assert_eq!(relative().rewrite_nav_href("/x/y.html"), Some("x/y.html".to_string()));
    assert_eq!(relative().rewrite_nav_href("#top"), None);
    assert_eq!(relative().rewrite_nav_href("mailto:a@example.com"), None);
    assert_eq!(relative().rewrite_nav_href("https://other.org/"), None);
}

#[test]
fn absolute_mode_names_the_port() {
    let mut state = ProxyState::new(page(), false);
    state.start_listener(4321);
    let ctx = RewriteContext::for_session(&state, page());
    assert_eq!(ctx.prefix, "http://localhost:4321");
    assert_eq!(
        ctx.rewrite_src("img.png"),
        Some("http://localhost:4321/proxy?url=https%3A%2F%2Fexample.com%2Fblog%2Fimg.png".to_string())
    );
    let fresh = ProxyState::new(page(), false);
    assert_eq!(RewriteContext::for_session(&fresh, page()).prefix, "http://localhost:3000");
    let rel = ProxyState::new(page(), true);
    assert_eq!(RewriteContext::for_session(&rel, page()).prefix, "");
}

#[test]
fn protocol_relative_src_takes_the_page_scheme() {
    assert_eq!(
        relative().rewrite_src("//cdn.example.org/x.js"),
        Some("/proxy?url=https%3A%2F%2Fcdn.example.org%2Fx.js".to_string())
    );
}

#[test]
fn resolved_urls_are_percent_encoded_again() {
    assert_eq!(
        relative().rewrite_src("a b.png"),
        Some("/proxy?url=https%3A%2F%2Fexample.com%2Fblog%2Fa%2520b.png".to_string())
    );
}

#[test]
fn kept_values_stay() {
    let ctx = relative();
    assert_eq!(ctx.rewrite_src("data:image/png;base64,AAAA"), None);
    assert_eq!(ctx.rewrite_src("blob:https://example.com/1"), None);
    assert_eq!(ctx.rewrite_src("https://cdn.example.org/a.png"), None);
    assert_eq!(ctx.rewrite_src("http://localhost:1234/proxy?url=x"), None);
    assert_eq!(ctx.rewrite_resource_href("#top"), None);
    assert_eq!(ctx.rewrite_resource_href("javascript:void(0)"), None);
}

#[test]
fn stylesheet_href_goes_through_the_proxy() {
    assert_eq!(
        relative().rewrite_resource_href("css/site.css"),
        Some("/proxy?url=https%3A%2F%2Fexample.com%2Fblog%2Fcss%2Fsite.css".to_string())
    );
}

#[test]
fn form_action_goes_through_the_proxy() {
    let ctx = relative();
    assert_eq!(
        ctx.rewrite_form_action("/login"),
        Some("/proxy?url=https%3A%2F%2Fexample.com%2Flogin".to_string())
    );
    assert_eq!(
        ctx.rewrite_form_action("https://other.org/post"),
        Some("/proxy?url=https%3A%2F%2Fother.org%2Fpost".to_string())
    );
    assert_eq!(ctx.rewrite_form_action("#"), None);
    assert_eq!(ctx.rewrite_form_action("javascript:send()"), None);
}

#[test]
fn srcset_candidates_are_rewritten_one_by_one() {
    assert_eq!(
        relative().rewrite_srcset("a.png 1x, /b.png 2x, data:xyz 3x"),
        "/proxy?url=https%3A%2F%2Fexample.com%2Fblog%2Fa.png 1x, \
         /proxy?url=https%3A%2F%2Fexample.com%2Fb.png 2x,  data:xyz 3x"
    );
    assert_eq!(
        relative().rewrite_srcset("small.jpg"),
        "/proxy?url=https%3A%2F%2Fexample.com%2Fblog%2Fsmall.jpg"
    );
    assert_eq!(relative().rewrite_srcset(" , "), "");
}

#[test]
fn listener_script_posts_the_rendered_page() {
    let s = listener_script();
    assert!(s.contains("RENDERED_HTML"));
    assert!(s.contains("REQUEST_RENDERED"));
    assert!(s.contains("RESTORE_VIDEO_TIME"));
    assert!(s.trim_start().starts_with("<script>"));
    assert!(s.trim_end().ends_with("</script>"));
}
