use vstd::prelude::*;
use crate::encoding::{percent_decoded, decode_component};
use crate::target::{TargetUrl, url_parse_of, url_join_of};
use crate::text::{
    begins_with, ends_with, includes, chars_of, starts_with_str, ends_with_str, contains_str, push_str,
    push_char, same_text,
};
use vstd::string::StringSliceAdditionalSpecFns;
use vstd::utf8::{valid_utf8, decode_utf8};

verus! {

/// CORS headers added to every proxied response.
pub const CORS_ALLOW_ORIGIN: &'static str = "*";

pub const CORS_ALLOW_METHODS: &'static str = "GET, POST, OPTIONS";

pub const CORS_ALLOW_HEADERS: &'static str = "Content-Type, Authorization";

pub const CORS_MAX_AGE: &'static str = "86400";

/// A path under the proxy root that names a static asset rather than a page.
pub open spec fn is_resource_path_spec(p: Seq<char>) -> bool {
    ends_with(p, ".css"@) || ends_with(p, ".js"@) || ends_with(p, ".png"@) || ends_with(p, ".jpg"@)
        || ends_with(p, ".jpeg"@) || ends_with(p, ".gif"@) || ends_with(p, ".svg"@) || ends_with(
        p,
        ".ico"@,
    ) || ends_with(p, ".woff"@) || ends_with(p, ".woff2"@) || ends_with(p, ".ttf"@) || ends_with(
        p,
        ".eot"@,
    ) || begins_with(p, "assets/"@) || begins_with(p, "images/"@) || begins_with(p, "fonts/"@)
}

/// Whether a path under the proxy root names a static asset (stylesheet, script, image,
/// font) rather than a page.
pub fn is_resource_path(path: &str) -> (r: bool)
    ensures
        r == is_resource_path_spec(path@),
{
    let p = chars_of(path);
    ends_with_str(&p, ".css") || ends_with_str(&p, ".js") || ends_with_str(&p, ".png")
        || ends_with_str(&p, ".jpg") || ends_with_str(&p, ".jpeg") || ends_with_str(&p, ".gif")
        || ends_with_str(&p, ".svg") || ends_with_str(&p, ".ico") || ends_with_str(&p, ".woff")
        || ends_with_str(&p, ".woff2") || ends_with_str(&p, ".ttf") || ends_with_str(&p, ".eot")
        || starts_with_str(&p, "assets/") || starts_with_str(&p, "images/") || starts_with_str(
        &p,
        "fonts/",
    )
}

/// An asset path taken from the root of the page's host.
pub open spec fn resource_url_spec(base: TargetUrl, path: Seq<char>) -> Seq<char> {
    base.scheme@ + "://"@ + base.host_or_local() + "/"@ + path
}

/// Where a request to the proxy goes.
#[derive(Debug, Clone, PartialEq, Eq)]
pub enum PageRoute {
    /// An asset: the URL to hand to the resource handler.
    Resource(String),
    /// A page: the URL to fetch and rewrite.
    Page(TargetUrl),
    /// The path does not resolve against the page being viewed.
    BadRequest,
}

/// Routes a path under the proxy root: assets are taken from the root of the page's host,
/// other paths resolve against the page.
pub fn route_page(base: &TargetUrl, path: &str) -> (r: PageRoute)
    ensures
        is_resource_path_spec(path@) ==> (r matches PageRoute::Resource(u) && u@
            == resource_url_spec(*base, path@)),
        !is_resource_path_spec(path@) ==> match r {
            PageRoute::Page(t) => url_join_of(base.href@, path@) == Some(t.parts()),
            PageRoute::BadRequest => url_join_of(base.href@, path@) is None,
            PageRoute::Resource(_) => false,
        },
{
    if is_resource_path(path) {
        let mut u = String::new();
        push_str(&mut u, base.scheme.as_str());
        push_str(&mut u, "://");
        push_str(&mut u, base.host_or_localhost());
        push_str(&mut u, "/");
        push_str(&mut u, path);
        assert(u@ =~= resource_url_spec(*base, path@));
        return PageRoute::Resource(u);
    }
    match base.join(path) {
        Some(t) => PageRoute::Page(t),
        None => PageRoute::BadRequest,
    }
}

/// The status of a request that the proxy cannot serve as asked.
pub const BAD_REQUEST: u16 = 400;

pub const BAD_GATEWAY: u16 = 502;

/// The URL that `/proxy?url=...` names: the parameter, percent-decoded, parsed.
/// A missing parameter, bytes that are not UTF-8 once decoded, or a string that is not a
/// URL give 400.
pub fn resource_target(param: Option<&str>) -> (r: Result<TargetUrl, u16>)
    ensures
        match param {
            None => r == Err::<TargetUrl, u16>(BAD_REQUEST),
            Some(p) => {
                let d = percent_decoded(p.spec_bytes());
                if !valid_utf8(d) {
                    r == Err::<TargetUrl, u16>(BAD_REQUEST)
                } else {
                    match url_parse_of(decode_utf8(d)) {
                        Some(parts) => r matches Ok(t) && t.parts() == parts,
                        None => r == Err::<TargetUrl, u16>(BAD_REQUEST),
                    }
                }
            },
        },
{
    match param {
        None => Err(BAD_REQUEST),
        Some(p) => match decode_component(p) {
            None => Err(BAD_REQUEST),
            Some(d) => match TargetUrl::parse(d.as_str()) {
                Ok(t) => Ok(t),
                Err(_) => Err(BAD_REQUEST),
            },
        },
    }
}

/// Inbound request headers that are not forwarded upstream (names in lower case, as the
/// HTTP library keeps them): the proxy's own host, its connection, and any inbound
/// credentials.
pub open spec fn dropped_request_header(name: Seq<char>) -> bool {
    name == "host"@ || name == "connection"@ || name == "authorization"@
}

/// Whether an inbound request header is forwarded upstream.
pub fn forward_request_header(name: &str) -> (r: bool)
    ensures
        r == !dropped_request_header(name@),
{
    !(same_text(name, "host") || same_text(name, "connection") || same_text(name, "authorization"))
}

/// Upstream response headers that are not passed on: they break framing or streaming, or
/// the proxy's transport sets them itself.
pub open spec fn dropped_response_header(name: Seq<char>) -> bool {
    name == "content-length"@ || name == "content-security-policy"@ || name == "x-frame-options"@
        || name == "transfer-encoding"@
}

/// Whether an upstream response header is passed on.
pub fn forward_response_header(name: &str) -> (r: bool)
    ensures
        r == !dropped_response_header(name@),
{
    !(same_text(name, "content-length") || same_text(name, "content-security-policy")
        || same_text(name, "x-frame-options") || same_text(name, "transfer-encoding"))
}

/// What the proxy does with an upstream response.
#[derive(Debug, Clone, Copy, PartialEq, Eq)]
pub enum ResponsePlan {
    /// 401: answer 200 with a page that asks the embedder for credentials.
    AuthPage,
    /// HTML: buffer the body and rewrite it.
    Rewrite,
    /// Anything else: stream the body through unchanged.
    Stream,
}

pub open spec fn response_plan_spec(status: u16, content_type: Option<Seq<char>>) -> ResponsePlan {
    if status == 401 {
        ResponsePlan::AuthPage
    } else if content_type is Some && includes(content_type->0, "text/html"@) {
        ResponsePlan::Rewrite
    } else {
        ResponsePlan::Stream
    }
}

/// Decides what to do with an upstream response from its status and content type.
pub fn response_plan(status: u16, content_type: Option<&str>) -> (r: ResponsePlan)
    ensures
        r == response_plan_spec(
            status,
            match content_type {
                Some(t) => Some(t@),
                None => None,
            },
        ),
{
    if status == 401 {
        return ResponsePlan::AuthPage;
    }
    match content_type {
        Some(t) => {
            let tc = chars_of(t);
            if contains_str(&tc, "text/html") {
                ResponsePlan::Rewrite
            } else {
                ResponsePlan::Stream
            }
        },
        None => ResponsePlan::Stream,
    }
}

/// A response that is not HTML, and not a 401, is streamed through untouched: the
/// rewriting pipeline never sees it.
pub proof fn lemma_non_html_streams(status: u16, content_type: Option<Seq<char>>)
    requires
        status != 401,
        content_type is None || !includes(content_type->0, "text/html"@),
    ensures
        response_plan_spec(status, content_type) == ResponsePlan::Stream,
{
}

/// `s` with each `'` escaped as `\'`, for a single-quoted script string.
pub open spec fn escape_quotes(s: Seq<char>) -> Seq<char>
    decreases s.len(),
{
    if s.len() == 0 {
        s
    } else {
        escape_quotes(s.drop_last()) + if s.last() == '\'' {
            seq!['\\', '\'']
        } else {
            seq![s.last()]
        }
    }
}

/// The page served in place of a 401: a script that tells the embedder which origin
/// needs credentials, and a line for the reader.
pub open spec fn auth_page_spec(origin: Seq<char>) -> Seq<char> {
    "<!DOCTYPE html>\n<html>\n<head><meta charset=\"UTF-8\"></head>\n<body>\n<script>\nwindow.parent.postMessage({\n  type: 'PROXY_AUTH_REQUIRED',\n  domain: '"@
        + escape_quotes(origin)
        + "'\n}, '*');\n</script>\n<p style=\"font-family: system-ui; text-align: center; padding: 2rem;\">\nAuthentication required for "@
        + origin + "\n</p>\n</body>\n</html>"@
}

/// The page served in place of a 401 for `origin`.
pub fn auth_required_page(origin: &str) -> (r: String)
    ensures
        r@ == auth_page_spec(origin@),
{
    let oc = chars_of(origin);
    let mut r = String::new();
    push_str(
        &mut r,
        "<!DOCTYPE html>\n<html>\n<head><meta charset=\"UTF-8\"></head>\n<body>\n<script>\nwindow.parent.postMessage({\n  type: 'PROXY_AUTH_REQUIRED',\n  domain: '",
    );
    let ghost head = r@;
    let mut i: usize = 0;
    while i < oc.len()
        invariant
            i <= oc.len(),
            r@ == head + escape_quotes(oc@.take(i as int)),
        decreases oc.len() - i,
    {
        assert(oc@.take(i + 1).drop_last() =~= oc@.take(i as int));
        if oc[i] == '\'' {
            push_char(&mut r, '\\');
            push_char(&mut r, '\'');
        } else {
            push_char(&mut r, oc[i]);
        }
        i = i + 1;
        assert(r@ =~= head + escape_quotes(oc@.take(i as int)));
    }
    assert(oc@.take(i as int) =~= origin@);
    push_str(
        &mut r,
        "'\n}, '*');\n</script>\n<p style=\"font-family: system-ui; text-align: center; padding: 2rem;\">\nAuthentication required for ",
    );
    push_str(&mut r, origin);
    push_str(&mut r, "\n</p>\n</body>\n</html>");
    assert(r@ =~= auth_page_spec(origin@));
    r
}

} // verus!
