use vstd::prelude::*;
use crate::error::FetchError;
use crate::text::push_str;

verus! {

/// An absolute URL as the URL parser serialises it, with the parts that the proxy reads:
/// its scheme and its host, if it has one.
#[derive(Debug, Clone, PartialEq, Eq)]
pub struct TargetUrl {
    pub href: String,
    pub scheme: String,
    pub host: Option<String>,
}

/// The parts of a parsed URL: serialisation, scheme, host.
pub type UrlParts = (Seq<char>, Seq<char>, Option<Seq<char>>);

pub open spec fn opt_view(o: Option<String>) -> Option<Seq<char>> {
    match o {
        Some(s) => Some(s@),
        None => None,
    }
}

/// What the URL parser makes of a string, or `None` where it refuses it.
pub uninterp spec fn url_parse_of(s: Seq<char>) -> Option<UrlParts>;

/// What the URL parser makes of `reference` read relative to the URL `base`.
pub uninterp spec fn url_join_of(base: Seq<char>, reference: Seq<char>) -> Option<UrlParts>;

/// Relies on `url::Url::parse`, and on `Url::as_str`, `Url::scheme` and `Url::host_str` to
/// read the parts of the parsed value.
#[verifier::external_body]
fn parse_url(s: &str) -> (r: Option<TargetUrl>)
    ensures
        match r {
            Some(u) => url_parse_of(s@) == Some(u.parts()),
            None => url_parse_of(s@) is None,
        },
{
    url::Url::parse(s).ok().map(
        |u|
            TargetUrl {
                href: u.as_str().to_string(),
                scheme: u.scheme().to_string(),
                host: u.host_str().map(|h| h.to_string()),
            },
    )
}

/// Relies on `url::Url::join`: `reference` read relative to `base`. The base is a URL
/// that the parser serialised; `Url::parse` turns it back into the parser's own type.
#[verifier::external_body]
fn join_url(base: &str, reference: &str) -> (r: Option<TargetUrl>)
    ensures
        match r {
            Some(u) => url_join_of(base@, reference@) == Some(u.parts()),
            None => url_join_of(base@, reference@) is None,
        },
{
    let base = url::Url::parse(base).ok()?;
    base.join(reference).ok().map(
        |u|
            TargetUrl {
                href: u.as_str().to_string(),
                scheme: u.scheme().to_string(),
                host: u.host_str().map(|h| h.to_string()),
            },
    )
}

impl TargetUrl {
    pub open spec fn parts(&self) -> UrlParts {
        (self.href@, self.scheme@, opt_view(self.host))
    }

    /// The host, or `localhost` where the URL has none.
    pub open spec fn host_or_local(&self) -> Seq<char> {
        match self.host {
            Some(h) => h@,
            None => "localhost"@,
        }
    }

    /// `scheme://host`: the key under which credentials are kept.
    pub open spec fn origin_spec(&self) -> Seq<char> {
        self.scheme@ + "://"@ + self.host_or_local()
    }

    /// Parses an absolute URL.
    pub fn parse(s: &str) -> (r: Result<TargetUrl, FetchError>)
        ensures
            match r {
                Ok(u) => url_parse_of(s@) == Some(u.parts()),
                Err(e) => url_parse_of(s@) is None && e == FetchError::InvalidUrl,
            },
    {
        match parse_url(s) {
            Some(u) => Ok(u),
            None => Err(FetchError::InvalidUrl),
        }
    }

    /// `reference` resolved against this URL.
    pub fn join(&self, reference: &str) -> (r: Option<TargetUrl>)
        ensures
            match r {
                Some(u) => url_join_of(self.href@, reference@) == Some(u.parts()),
                None => url_join_of(self.href@, reference@) is None,
            },
    {
        join_url(self.href.as_str(), reference)
    }

    /// The host, or `localhost` where the URL has none.
    pub fn host_or_localhost(&self) -> (r: &str)
        ensures
            r@ == self.host_or_local(),
    {
        match &self.host {
            Some(h) => h.as_str(),
            None => "localhost",
        }
    }

    /// `scheme://host`.
    pub fn origin(&self) -> (r: String)
        ensures
            r@ == self.origin_spec(),
    {
        let mut r = String::new();
        push_str(&mut r, self.scheme.as_str());
        push_str(&mut r, "://");
        push_str(&mut r, self.host_or_localhost());
        r
    }

    /// The serialisation of the URL.
    pub fn as_str(&self) -> (r: &str)
        ensures
            r@ == self.href@,
    {
        self.href.as_str()
    }
}

} // verus!
