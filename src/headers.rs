use vstd::prelude::*;
use crate::target::TargetUrl;
use crate::text::push_str;

verus! {

/// The browser identity that the proxy shows upstream.
pub const PROXY_USER_AGENT: &'static str = "Mozilla/5.0 (Windows NT 10.0; Win64; x64) AppleWebKit/537.36 (KHTML, like Gecko) Chrome/120.0.0.0 Safari/537.36";

/// The browser identity that article fetches and logins show upstream.
pub const FETCH_USER_AGENT: &'static str = "Mozilla/5.0 (Windows NT 10.0; Win64; x64; rv:75.0) Gecko/20100101 Firefox/75.0";

pub const PAGE_ACCEPT: &'static str = "text/html,application/xhtml+xml,application/xml;q=0.9,image/webp,*/*;q=0.8";

pub const RESOURCE_ACCEPT: &'static str = "*/*";

pub const FETCH_ACCEPT: &'static str = "text/html,application/xhtml+xml,application/xml;q=0.9,image/webp,image/apng,*/*;q=0.8";

pub const PROXY_ACCEPT_LANGUAGE: &'static str = "en-US,en;q=0.9";

pub const FETCH_ACCEPT_LANGUAGE: &'static str = "fr-FR,fr;q=0.8,en-US;q=0.6,en;q=0.4";

pub const ACCEPT_ENCODING: &'static str = "gzip, deflate, br";

pub const FORM_CONTENT_TYPE: &'static str = "application/x-www-form-urlencoded";

/// Header names and values as character sequences.
pub open spec fn header_views(v: Seq<(String, String)>) -> Seq<(Seq<char>, Seq<char>)> {
    v.map_values(|p: (String, String)| (p.0@, p.1@))
}

/// The headers that the proxy adds to an upstream request: a browser identity, what it
/// accepts, the page being viewed as referer, and the target's host. Pages also ask
/// for secure requests.
pub open spec fn proxy_headers_spec(page: bool, referer: Seq<char>, host: Seq<char>) -> Seq<
    (Seq<char>, Seq<char>),
> {
    seq![
        ("user-agent"@, PROXY_USER_AGENT@),
        ("accept"@, if page { PAGE_ACCEPT@ } else { RESOURCE_ACCEPT@ }),
        ("accept-language"@, PROXY_ACCEPT_LANGUAGE@),
        ("accept-encoding"@, ACCEPT_ENCODING@),
        ("connection"@, "keep-alive"@),
    ] + (if page {
        seq![("upgrade-insecure-requests"@, "1"@)]
    } else {
        Seq::empty()
    }) + seq![("referer"@, referer), ("host"@, host)]
}

/// The headers of an article fetch: those of a browser, without `Sec-Fetch-*`.
pub open spec fn fetch_headers_spec() -> Seq<(Seq<char>, Seq<char>)> {
    seq![
        ("user-agent"@, FETCH_USER_AGENT@),
        ("accept"@, FETCH_ACCEPT@),
        ("accept-encoding"@, ACCEPT_ENCODING@),
        ("accept-language"@, FETCH_ACCEPT_LANGUAGE@),
        ("cache-control"@, "no-cache"@),
        ("pragma"@, "no-cache"@),
        ("connection"@, "keep-alive"@),
        ("upgrade-insecure-requests"@, "1"@),
    ]
}

/// The headers of a login POST: those of an article fetch, with the form's content
/// type, and the login page's origin, host and address.
pub open spec fn login_headers_spec(url: TargetUrl) -> Seq<(Seq<char>, Seq<char>)> {
    fetch_headers_spec() + seq![
        ("content-type"@, FORM_CONTENT_TYPE@),
        ("origin"@, url.origin_spec()),
        ("host"@, url.host_or_local()),
        ("referer"@, url.href@),
    ]
}

fn header(name: &str, value: &str) -> (r: (String, String))
    ensures
        r.0@ == name@,
        r.1@ == value@,
{
    let mut n = String::new();
    push_str(&mut n, name);
    let mut v = String::new();
    push_str(&mut v, value);
    (n, v)
}

/// The headers that the proxy adds to an upstream request for a page or an asset.
pub fn proxy_request_headers(page: bool, referer: &str, host: &str) -> (r: Vec<(String, String)>)
    ensures
        header_views(r@) == proxy_headers_spec(page, referer@, host@),
{
    let mut r: Vec<(String, String)> = Vec::new();
    r.push(header("user-agent", PROXY_USER_AGENT));
    r.push(header("accept", if page { PAGE_ACCEPT } else { RESOURCE_ACCEPT }));
    r.push(header("accept-language", PROXY_ACCEPT_LANGUAGE));
    r.push(header("accept-encoding", ACCEPT_ENCODING));
    r.push(header("connection", "keep-alive"));
    if page {
        r.push(header("upgrade-insecure-requests", "1"));
    }
    r.push(header("referer", referer));
    r.push(header("host", host));
    assert(header_views(r@) =~= proxy_headers_spec(page, referer@, host@));
    r
}

/// The headers of an article fetch.
pub fn fetch_request_headers() -> (r: Vec<(String, String)>)
    ensures
        header_views(r@) == fetch_headers_spec(),
{
    let mut r: Vec<(String, String)> = Vec::new();
    r.push(header("user-agent", FETCH_USER_AGENT));
    r.push(header("accept", FETCH_ACCEPT));
    r.push(header("accept-encoding", ACCEPT_ENCODING));
    r.push(header("accept-language", FETCH_ACCEPT_LANGUAGE));
    r.push(header("cache-control", "no-cache"));
    r.push(header("pragma", "no-cache"));
    r.push(header("connection", "keep-alive"));
    r.push(header("upgrade-insecure-requests", "1"));
    assert(header_views(r@) =~= fetch_headers_spec());
    r
}

/// The headers of a login POST to `url`.
pub fn login_request_headers(url: &TargetUrl) -> (r: Vec<(String, String)>)
    ensures
        header_views(r@) == login_headers_spec(*url),
{
    let mut r = fetch_request_headers();
    let ghost base = r@;
    r.push(header("content-type", FORM_CONTENT_TYPE));
    let origin = url.origin();
    r.push(header("origin", origin.as_str()));
    r.push(header("host", url.host_or_localhost()));
    r.push(header("referer", url.as_str()));
    assert(header_views(r@) =~= login_headers_spec(*url));
    r
}

} // verus!
