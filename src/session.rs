use vstd::prelude::*;
use crate::error::FetchError;
use crate::target::TargetUrl;
use crate::text::{same_text, push_str};

verus! {

/// Login details kept for one origin (`scheme://host`).
#[derive(Debug, Clone, PartialEq, Eq)]
pub struct Credential {
    pub origin: String,
    pub username: String,
    pub password: String,
}

/// The credentials that a list of entries gives: a later entry for an origin overrides
/// an earlier one.
pub open spec fn credential_map(s: Seq<Credential>) -> Map<Seq<char>, (Seq<char>, Seq<char>)>
    decreases s.len(),
{
    if s.len() == 0 {
        Map::empty()
    } else {
        credential_map(s.drop_last()).insert(
            s.last().origin@,
            (s.last().username@, s.last().password@),
        )
    }
}

/// The session shared by every request of a viewing session: the page being viewed,
/// the proxy's port once it runs, the credentials per origin, and whether rewritten
/// URLs stay relative to the proxy.
#[derive(Debug, Clone, PartialEq, Eq)]
pub struct ProxyState {
    pub base_url: TargetUrl,
    pub port: Option<u16>,
    pub auth_credentials: Vec<Credential>,
    pub use_relative_paths: bool,
}

/// What a request to start the proxy decided: the port it serves on, and whether a
/// listener is to be opened on it.
#[derive(Debug, Clone, Copy, PartialEq, Eq)]
pub struct ListenerStart {
    pub port: u16,
    pub spawn: bool,
}

/// The port after a start request, and the decision: an assigned port stays, and only
/// the first start opens a listener.
pub open spec fn start_spec(port: Option<u16>, candidate: u16) -> (Option<u16>, ListenerStart) {
    match port {
        Some(p) => (port, ListenerStart { port: p, spawn: false }),
        None => (Some(candidate), ListenerStart { port: candidate, spawn: true }),
    }
}

/// The port that rewritten URLs name before the proxy has one.
pub const DEFAULT_PROXY_PORT: u16 = 3000;

proof fn lemma_credential_map_without(s: Seq<Credential>, o: Seq<char>, f: Seq<Credential>)
    requires
        f == s.filter(|c: Credential| c.origin@ != o),
    ensures
        credential_map(f) == credential_map(s).remove(o),
    decreases s.len(),
{
    reveal(Seq::filter);
    if s.len() == 0 {
        assert(credential_map(f) =~= credential_map(s).remove(o));
    } else {
        let g = s.drop_last().filter(|c: Credential| c.origin@ != o);
        lemma_credential_map_without(s.drop_last(), o, g);
        if s.last().origin@ == o {
            assert(f == g);
            assert(credential_map(f) =~= credential_map(s).remove(o));
        } else {
            assert(f == g.push(s.last()));
            assert(f.drop_last() =~= g);
            assert(credential_map(f) =~= credential_map(s).remove(o));
        }
    }
}

proof fn lemma_credential_found(s: Seq<Credential>, i: int, o: Seq<char>)
    requires
        0 <= i < s.len(),
        s[i].origin@ == o,
        forall|j: int| i < j < s.len() ==> s[j].origin@ != o,
    ensures
        credential_map(s).contains_key(o),
        credential_map(s)[o] == (s[i].username@, s[i].password@),
    decreases s.len(),
{
    if i < s.len() - 1 {
        lemma_credential_found(s.drop_last(), i, o);
    }
}

proof fn lemma_credential_absent(s: Seq<Credential>, o: Seq<char>)
    requires
        forall|j: int| 0 <= j < s.len() ==> s[j].origin@ != o,
    ensures
        !credential_map(s).contains_key(o),
    decreases s.len(),
{
    if s.len() > 0 {
        lemma_credential_absent(s.drop_last(), o);
    }
}

impl ProxyState {
    /// The credentials kept, by origin.
    pub open spec fn credentials(&self) -> Map<Seq<char>, (Seq<char>, Seq<char>)> {
        credential_map(self.auth_credentials@)
    }

    /// A session viewing `base_url`, with no port, no credentials, and the given
    /// rewriting mode.
    pub fn new(base_url: TargetUrl, use_relative_paths: bool) -> (r: ProxyState)
        ensures
            r.base_url == base_url,
            r.port is None,
            r.credentials() == Map::<Seq<char>, (Seq<char>, Seq<char>)>::empty(),
            r.use_relative_paths == use_relative_paths,
    {
        ProxyState { base_url, port: None, auth_credentials: Vec::new(), use_relative_paths }
    }

    /// Points the session at another page.
    pub fn set_base_url(&mut self, url: TargetUrl)
        ensures
            final(self).base_url == url,
            final(self).port == old(self).port,
            final(self).credentials() == old(self).credentials(),
            final(self).use_relative_paths == old(self).use_relative_paths,
    {
        self.base_url = url;
    }

    /// Keeps `username` and `password` for `origin`, in place of any kept before.
    pub fn set_credentials(&mut self, origin: String, username: String, password: String)
        ensures
            final(self).credentials() == old(self).credentials().insert(
                origin@,
                (username@, password@),
            ),
            final(self).base_url == old(self).base_url,
            final(self).port == old(self).port,
            final(self).use_relative_paths == old(self).use_relative_paths,
    {
        self.clear_credentials(origin.as_str());
        let ghost mid = self.auth_credentials@;
        self.auth_credentials.push(Credential { origin, username, password });
        assert(self.auth_credentials@.drop_last() == mid);
        assert(self.credentials() =~= old(self).credentials().insert(
            origin@,
            (username@, password@),
        ));
    }

    /// Forgets the credentials kept for `origin`.
    pub fn clear_credentials(&mut self, origin: &str)
        ensures
            final(self).credentials() == old(self).credentials().remove(origin@),
            final(self).base_url == old(self).base_url,
            final(self).port == old(self).port,
            final(self).use_relative_paths == old(self).use_relative_paths,
    {
        let ghost o = origin@;
        let mut kept: Vec<Credential> = Vec::new();
        let mut i: usize = 0;
        while i < self.auth_credentials.len()
            invariant
                o == origin@,
                i <= self.auth_credentials.len(),
                self.auth_credentials@ == old(self).auth_credentials@,
                kept@ == self.auth_credentials@.take(i as int).filter(
                    |c: Credential| c.origin@ != o,
                ),
            decreases self.auth_credentials.len() - i,
        {
            let c = &self.auth_credentials[i];
            assert(self.auth_credentials@.take(i + 1).drop_last() =~= self.auth_credentials@.take(
                i as int,
            ));
            assert(self.auth_credentials@.take(i + 1).last() == self.auth_credentials@[i as int]);
            reveal(Seq::filter);
            if !same_text(c.origin.as_str(), origin) {
                kept.push(
                    Credential {
                        origin: c.origin.clone(),
                        username: c.username.clone(),
                        password: c.password.clone(),
                    },
                );
            }
            i = i + 1;
        }
        assert(self.auth_credentials@.take(i as int) =~= self.auth_credentials@);
        proof {
            lemma_credential_map_without(self.auth_credentials@, o, kept@);
        }
        self.auth_credentials = kept;
    }

    /// The credentials kept for `origin`.
    pub fn credentials_for(&self, origin: &str) -> (r: Option<(String, String)>)
        ensures
            match r {
                Some((u, p)) => self.credentials().contains_key(origin@)
                    && self.credentials()[origin@] == (u@, p@),
                None => !self.credentials().contains_key(origin@),
            },
    {
        let mut i = self.auth_credentials.len();
        while i > 0
            invariant
                i <= self.auth_credentials.len(),
                forall|j: int|
                    i <= j < self.auth_credentials@.len() ==> self.auth_credentials@[j].origin@
                        != origin@,
            decreases i,
        {
            i = i - 1;
            let c = &self.auth_credentials[i];
            if same_text(c.origin.as_str(), origin) {
                proof {
                    lemma_credential_found(self.auth_credentials@, i as int, origin@);
                }
                return Some((c.username.clone(), c.password.clone()));
            }
        }
        proof {
            lemma_credential_absent(self.auth_credentials@, origin@);
        }
        None
    }

    /// The credentials to send with a request to `target`, by its origin.
    pub fn credentials_for_url(&self, target: &TargetUrl) -> (r: Option<(String, String)>)
        ensures
            match r {
                Some((u, p)) => self.credentials().contains_key(target.origin_spec())
                    && self.credentials()[target.origin_spec()] == (u@, p@),
                None => !self.credentials().contains_key(target.origin_spec()),
            },
    {
        let origin = target.origin();
        self.credentials_for(origin.as_str())
    }

    /// Handles a request to start the proxy on `candidate`, a free port: a proxy that
    /// already runs keeps its port and no second listener is opened.
    pub fn start_listener(&mut self, candidate: u16) -> (r: ListenerStart)
        ensures
            (final(self).port, r) == start_spec(old(self).port, candidate),
            final(self).base_url == old(self).base_url,
            final(self).credentials() == old(self).credentials(),
            final(self).use_relative_paths == old(self).use_relative_paths,
    {
        match self.port {
            Some(p) => ListenerStart { port: p, spawn: false },
            None => {
                self.port = Some(candidate);
                ListenerStart { port: candidate, spawn: true }
            },
        }
    }

    /// The port that rewritten URLs name.
    pub open spec fn proxy_port_spec(&self) -> u16 {
        match self.port {
            Some(p) => p,
            None => DEFAULT_PROXY_PORT,
        }
    }

    /// The port that rewritten URLs name.
    pub fn proxy_port(&self) -> (r: u16)
        ensures
            r == self.proxy_port_spec(),
    {
        match self.port {
            Some(p) => p,
            None => DEFAULT_PROXY_PORT,
        }
    }
}

impl Default for ProxyState {
    /// A session on `http://localhost/`, with no port, no credentials and absolute
    /// rewriting.
    fn default() -> (r: ProxyState)
        ensures
            r.base_url.href@ == "http://localhost/"@,
            r.base_url.scheme@ == "http"@,
            r.base_url.host == Some(r.base_url.host->0) && r.base_url.host->0@ == "localhost"@,
            r.port is None,
            r.credentials() == Map::<Seq<char>, (Seq<char>, Seq<char>)>::empty(),
            !r.use_relative_paths,
    {
        let mut href = String::new();
        push_str(&mut href, "http://localhost/");
        let mut scheme = String::new();
        push_str(&mut scheme, "http");
        let mut host = String::new();
        push_str(&mut host, "localhost");
        ProxyState::new(TargetUrl { href, scheme, host: Some(host) }, false)
    }
}

/// The origin that an upstream status asks credentials for: the target's, on 401.
pub open spec fn auth_required_for(status: u16, target: TargetUrl) -> Option<Seq<char>> {
    if status == 401 {
        Some(target.origin_spec())
    } else {
        None
    }
}

/// The answer that an upstream status calls for: 401 asks for credentials for the
/// target's origin; any other status goes on.
pub fn check_upstream_status(status: u16, target: &TargetUrl) -> (r: Result<(), FetchError>)
    ensures
        match r {
            Ok(()) => auth_required_for(status, *target) is None,
            Err(FetchError::AuthRequired(o)) => auth_required_for(status, *target) == Some(o@),
            Err(_) => false,
        },
{
    if status == 401 {
        Err(FetchError::AuthRequired(target.origin()))
    } else {
        Ok(())
    }
}

/// The raw page for the host application: the body, or `AuthRequired(origin)` on 401.
pub fn raw_html_outcome(status: u16, target: &TargetUrl, body: String) -> (r: Result<
    String,
    FetchError,
>)
    ensures
        status == 401 ==> (r matches Err(FetchError::AuthRequired(o)) && o@
            == target.origin_spec()),
        status != 401 ==> (r matches Ok(b) && b@ == body@),
{
    match check_upstream_status(status, target) {
        Ok(()) => Ok(body),
        Err(e) => Err(e),
    }
}

/// Two start requests in a row give one port, the second leaves the session as the
/// first left it, and only the first can open a listener.
pub proof fn lemma_start_idempotent(port: Option<u16>, first: u16, second: u16)
    ensures
        ({
            let (p1, d1) = start_spec(port, first);
            let (p2, d2) = start_spec(p1, second);
            &&& d1.port == d2.port
            &&& p2 == p1
            &&& !d2.spawn
            &&& p1 == Some(d1.port)
        }),
{
}

/// A request to an origin without credentials that is answered 401 yields `AuthRequired`
/// for that origin. Once credentials are kept for that origin (`before` to `after`, as
/// `set_credentials` leaves them), they are the ones sent with the same request, and
/// credentials kept for other origins stay as they were.
pub proof fn lemma_auth_flow(
    before: ProxyState,
    after: ProxyState,
    target: TargetUrl,
    username: Seq<char>,
    password: Seq<char>,
)
    requires
        after.credentials() == before.credentials().insert(
            target.origin_spec(),
            (username, password),
        ),
    ensures
        !before.credentials().contains_key(target.origin_spec()) ==> auth_required_for(
            401,
            target,
        ) == Some(target.origin_spec()),
        after.credentials().contains_key(target.origin_spec()),
        after.credentials()[target.origin_spec()] == (username, password),
        forall|o: Seq<char>|
            o != target.origin_spec() ==> (after.credentials().contains_key(o)
                == before.credentials().contains_key(o) && after.credentials().contains_key(o)
                ==> after.credentials()[o] == before.credentials()[o]),
{
}

} // verus!
