use vstd::prelude::*;
use vstd::utf8::encode_utf8;
use crate::encoding::{percent_encoded, encode_component};
use crate::session::ProxyState;
use crate::target::{TargetUrl, url_join_of};
use crate::text::{
    begins_with, push_str, push_char, chars_of, starts_with_str, string_of_range, trimmed,
    is_white, white, trim_chars,
};

verus! {

/// Where rewritten URLs point: the page being rewritten, and the start of every proxied
/// URL (`http://localhost:<port>`, or empty where URLs stay relative to the proxy).
#[derive(Debug, Clone, PartialEq, Eq)]
pub struct RewriteContext {
    pub target: TargetUrl,
    pub prefix: String,
}

pub open spec fn digit_char(d: nat) -> char {
    ((48 + d % 10) as u8) as char
}

/// The decimal digits of `n`.
pub open spec fn decimal(n: nat) -> Seq<char>
    decreases n,
{
    if n < 10 {
        seq![digit_char(n)]
    } else {
        decimal(n / 10).push(digit_char(n % 10))
    }
}

/// Appends the decimal digits of `n`.
pub fn push_decimal(out: &mut String, n: u16)
    ensures
        final(out)@ == old(out)@ + decimal(n as nat),
    decreases n,
{
    if n >= 10 {
        push_decimal(out, n / 10);
    }
    let d = (n % 10) as u8;
    push_char(out, (48u8 + d) as char);
    assert(final(out)@ =~= old(out)@ + decimal(n as nat));
}

/// The proxied-URL prefix of a session: empty in relative mode, else
/// `http://localhost:<port>`.
pub open spec fn prefix_spec(relative: bool, port: u16) -> Seq<char> {
    if relative {
        Seq::empty()
    } else {
        "http://localhost:"@ + decimal(port as nat)
    }
}

/// The URL through which the proxy serves `absolute`.
pub open spec fn proxied(prefix: Seq<char>, absolute: Seq<char>) -> Seq<char> {
    prefix + "/proxy?url="@ + percent_encoded(encode_utf8(absolute))
}

/// Values left as they are in `src` and `srcset`: inline data, blobs, URLs already on the
/// proxy, absolute `http(s)` URLs.
pub open spec fn kept_source(v: Seq<char>) -> bool {
    begins_with(v, "data:"@) || begins_with(v, "blob:"@) || begins_with(v, "http://localhost:"@)
        || begins_with(v, "https://"@) || begins_with(v, "http://"@)
}

/// Values left as they are in `href`: those of `kept_source`, fragments, scripts, mail.
pub open spec fn kept_link(v: Seq<char>) -> bool {
    kept_source(v) || begins_with(v, "#"@) || begins_with(v, "javascript:"@) || begins_with(
        v,
        "mailto:"@,
    )
}

/// Values left as they are in a form's `action`.
pub open spec fn kept_action(v: Seq<char>) -> bool {
    begins_with(v, "data:"@) || begins_with(v, "blob:"@) || begins_with(v, "http://localhost:"@)
        || begins_with(v, "#"@) || begins_with(v, "javascript:"@)
}

/// The serialisation of what `reference` resolves to against `base`.
pub open spec fn joined_href(base: Seq<char>, reference: Seq<char>) -> Option<Seq<char>> {
    match url_join_of(base, reference) {
        Some(p) => Some(p.0),
        None => None,
    }
}

impl RewriteContext {
    /// `v` as an absolute URL: protocol-relative values take the page's scheme,
    /// domain-root values its scheme and host, and others resolve against the page.
    pub open spec fn absolute_spec(&self, v: Seq<char>) -> Option<Seq<char>> {
        if begins_with(v, "//"@) {
            Some(self.target.scheme@ + ":"@ + v)
        } else if begins_with(v, "/"@) {
            Some(self.target.scheme@ + "://"@ + self.target.host_or_local() + v)
        } else {
            joined_href(self.target.href@, v)
        }
    }

    /// The new value of a `src`, or `None` where it stays.
    pub open spec fn src_spec(&self, v: Seq<char>) -> Option<Seq<char>> {
        if kept_source(v) {
            None
        } else {
            match self.absolute_spec(v) {
                Some(a) => Some(proxied(self.prefix@, a)),
                None => None,
            }
        }
    }

    /// The new value of a `link` or `area` `href`, or `None` where it stays.
    pub open spec fn resource_href_spec(&self, v: Seq<char>) -> Option<Seq<char>> {
        if kept_link(v) {
            None
        } else {
            match self.absolute_spec(v) {
                Some(a) => Some(proxied(self.prefix@, a)),
                None => None,
            }
        }
    }

    /// The new value of an `a` `href`: a path relative to the proxy root, or `None` where
    /// it stays. Domain-root values lose their leading slash; others resolve against the
    /// page and keep their path where they stay on the page's origin.
    pub open spec fn nav_href_spec(&self, v: Seq<char>) -> Option<Seq<char>> {
        if kept_link(v) {
            None
        } else if begins_with(v, "/"@) {
            Some(v.drop_first())
        } else {
            match joined_href(self.target.href@, v) {
                Some(a) => {
                    let root = self.target.origin_spec() + "/"@;
                    if begins_with(a, root) {
                        Some(a.subrange(root.len() as int, a.len() as int))
                    } else {
                        None
                    }
                },
                None => None,
            }
        }
    }

    /// The new value of a form's `action`, or `None` where it stays.
    pub open spec fn action_spec(&self, v: Seq<char>) -> Option<Seq<char>> {
        if kept_action(v) {
            None
        } else {
            match joined_href(self.target.href@, v) {
                Some(a) => Some(proxied(self.prefix@, a)),
                None => None,
            }
        }
    }

    /// The context for rewriting `target` in a session.
    pub fn for_session(state: &ProxyState, target: TargetUrl) -> (r: RewriteContext)
        ensures
            r.target == target,
            r.prefix@ == prefix_spec(state.use_relative_paths, state.proxy_port_spec()),
    {
        let mut prefix = String::new();
        if !state.use_relative_paths {
            push_str(&mut prefix, "http://localhost:");
            push_decimal(&mut prefix, state.proxy_port());
        }
        assert(prefix@ =~= prefix_spec(state.use_relative_paths, state.proxy_port_spec()));
        RewriteContext { target, prefix }
    }

    /// The URL through which the proxy serves `absolute`.
    pub fn proxied_url(&self, absolute: &str) -> (r: String)
        ensures
            r@ == proxied(self.prefix@, absolute@),
    {
        let mut r = String::new();
        push_str(&mut r, self.prefix.as_str());
        push_str(&mut r, "/proxy?url=");
        let e = encode_component(absolute);
        push_str(&mut r, e.as_str());
        assert(r@ =~= proxied(self.prefix@, absolute@));
        r
    }

    /// `v` as an absolute URL.
    pub fn absolute(&self, v: &str) -> (r: Option<String>)
        ensures
            match r {
                Some(a) => self.absolute_spec(v@) == Some(a@),
                None => self.absolute_spec(v@) is None,
            },
    {
        let vc = chars_of(v);
        if starts_with_str(&vc, "//") {
            let mut r = String::new();
            push_str(&mut r, self.target.scheme.as_str());
            push_str(&mut r, ":");
            push_str(&mut r, v);
            Some(r)
        } else if starts_with_str(&vc, "/") {
            let mut r = String::new();
            push_str(&mut r, self.target.scheme.as_str());
            push_str(&mut r, "://");
            push_str(&mut r, self.target.host_or_localhost());
            push_str(&mut r, v);
            Some(r)
        } else {
            match self.target.join(v) {
                Some(u) => Some(u.href),
                None => None,
            }
        }
    }

    /// The new value of a `src` attribute, or `None` where it stays.
    pub fn rewrite_src(&self, v: &str) -> (r: Option<String>)
        ensures
            match r {
                Some(n) => self.src_spec(v@) == Some(n@),
                None => self.src_spec(v@) is None,
            },
    {
        let vc = chars_of(v);
        if kept_source_exec(&vc) {
            return None;
        }
        match self.absolute(v) {
            Some(a) => Some(self.proxied_url(a.as_str())),
            None => None,
        }
    }

    /// The new value of a `link` or `area` `href` attribute, or `None` where it stays.
    pub fn rewrite_resource_href(&self, v: &str) -> (r: Option<String>)
        ensures
            match r {
                Some(n) => self.resource_href_spec(v@) == Some(n@),
                None => self.resource_href_spec(v@) is None,
            },
    {
        let vc = chars_of(v);
        if kept_link_exec(&vc) {
            return None;
        }
        match self.absolute(v) {
            Some(a) => Some(self.proxied_url(a.as_str())),
            None => None,
        }
    }

    /// The new value of an `a` `href` attribute, or `None` where it stays.
    pub fn rewrite_nav_href(&self, v: &str) -> (r: Option<String>)
        ensures
            match r {
                Some(n) => self.nav_href_spec(v@) == Some(n@),
                None => self.nav_href_spec(v@) is None,
            },
    {
        let vc = chars_of(v);
        if kept_link_exec(&vc) {
            return None;
        }
        if starts_with_str(&vc, "/") {
            proof {
                reveal_strlit("/");
            }
            let r = string_of_range(&vc, 1, vc.len());
            assert(r@ =~= v@.drop_first());
            return Some(r);
        }
        match self.target.join(v) {
            Some(u) => {
                let mut root = self.target.origin();
                push_str(&mut root, "/");
                let ac = chars_of(u.href.as_str());
                if starts_with_str(&ac, root.as_str()) {
                    Some(string_of_range(&ac, root.unicode_len(), ac.len()))
                } else {
                    None
                }
            },
            None => None,
        }
    }

    /// The new value of a form's `action` attribute, or `None` where it stays.
    pub fn rewrite_form_action(&self, v: &str) -> (r: Option<String>)
        ensures
            match r {
                Some(n) => self.action_spec(v@) == Some(n@),
                None => self.action_spec(v@) is None,
            },
    {
        let vc = chars_of(v);
        if starts_with_str(&vc, "data:") || starts_with_str(&vc, "blob:") || starts_with_str(
            &vc,
            "http://localhost:",
        ) || starts_with_str(&vc, "#") || starts_with_str(&vc, "javascript:") {
            return None;
        }
        match self.target.join(v) {
            Some(u) => Some(self.proxied_url(u.href.as_str())),
            None => None,
        }
    }
}

fn kept_source_exec(vc: &Vec<char>) -> (r: bool)
    ensures
        r == kept_source(vc@),
{
    starts_with_str(vc, "data:") || starts_with_str(vc, "blob:") || starts_with_str(
        vc,
        "http://localhost:",
    ) || starts_with_str(vc, "https://") || starts_with_str(vc, "http://")
}

fn kept_link_exec(vc: &Vec<char>) -> (r: bool)
    ensures
        r == kept_link(vc@),
{
    kept_source_exec(vc) || starts_with_str(vc, "#") || starts_with_str(vc, "javascript:")
        || starts_with_str(vc, "mailto:")
}

/// The pieces of `s` between commas, in order.
pub open spec fn split_commas(s: Seq<char>) -> Seq<Seq<char>>
    decreases s.len(),
{
    if s.len() == 0 {
        seq![Seq::empty()]
    } else {
        let r = split_commas(s.drop_last());
        if s.last() == ',' {
            r.push(Seq::empty())
        } else {
            r.update(r.len() - 1, r.last().push(s.last()))
        }
    }
}

/// The number of characters before the first white space.
pub open spec fn token_len(t: Seq<char>) -> nat
    decreases t.len(),
{
    if t.len() == 0 || is_white(t[0]) {
        0
    } else {
        1 + token_len(t.drop_first())
    }
}

/// The pieces joined with `", "`.
pub open spec fn join_comma(ps: Seq<Seq<char>>) -> Seq<char>
    decreases ps.len(),
{
    if ps.len() == 0 {
        Seq::empty()
    } else if ps.len() == 1 {
        ps[0]
    } else {
        join_comma(ps.drop_last()) + ", "@ + ps.last()
    }
}

pub open spec fn string_views(v: Seq<String>) -> Seq<Seq<char>> {
    v.map_values(|s: String| s@)
}

proof fn lemma_token_len(t: Seq<char>, k: int)
    requires
        0 <= k <= t.len(),
        forall|j: int| 0 <= j < k ==> !is_white(t[j]),
        k == t.len() || is_white(t[k]),
    ensures
        token_len(t) == k,
    decreases k,
{
    if k > 0 {
        lemma_token_len(t.drop_first(), k - 1);
    }
}

impl RewriteContext {
    /// The new form of one `srcset` candidate (`url descriptor`), or `None` where it is
    /// dropped: blank candidates and URLs that do not resolve. Kept URLs keep the
    /// candidate as written; others are proxied, followed by their descriptor.
    pub open spec fn candidate_spec(&self, c: Seq<char>) -> Option<Seq<char>> {
        let t = trimmed(c);
        let n = token_len(t) as int;
        let u = t.take(n);
        let d = trimmed(t.skip(n));
        if t.len() == 0 {
            None
        } else if kept_source(u) {
            Some(c)
        } else {
            match self.absolute_spec(u) {
                Some(a) => Some(
                    proxied(self.prefix@, a) + if d.len() == 0 {
                        Seq::empty()
                    } else {
                        " "@ + d
                    },
                ),
                None => None,
            }
        }
    }

    /// The new forms of the candidates, those that are dropped left out.
    pub open spec fn candidates_spec(&self, cs: Seq<Seq<char>>) -> Seq<Seq<char>>
        decreases cs.len(),
    {
        if cs.len() == 0 {
            Seq::empty()
        } else {
            let r = self.candidates_spec(cs.drop_last());
            match self.candidate_spec(cs.last()) {
                Some(x) => r.push(x),
                None => r,
            }
        }
    }

    /// The new value of a `srcset` attribute.
    pub open spec fn srcset_spec(&self, v: Seq<char>) -> Seq<char> {
        join_comma(self.candidates_spec(split_commas(v)))
    }

    /// The new form of one `srcset` candidate, or `None` where it is dropped.
    pub fn rewrite_candidate(&self, c: &Vec<char>) -> (r: Option<String>)
        ensures
            match r {
                Some(x) => self.candidate_spec(c@) == Some(x@),
                None => self.candidate_spec(c@) is None,
            },
    {
        let t = trim_chars(c);
        if t.len() == 0 {
            return None;
        }
        let mut k: usize = 0;
        while k < t.len() && !white(t[k])
            invariant
                k <= t.len(),
                forall|j: int| 0 <= j < k ==> !is_white(t@[j]),
            decreases t.len() - k,
        {
            k = k + 1;
        }
        proof {
            lemma_token_len(t@, k as int);
        }
        let u = string_of_range(&t, 0, k);
        let uc = chars_of(u.as_str());
        assert(uc@ =~= t@.take(k as int));
        if kept_source_exec(&uc) {
            return Some(string_of_range(c, 0, c.len()));
        }
        let rest = string_of_range(&t, k, t.len());
        let restc = chars_of(rest.as_str());
        assert(restc@ =~= t@.skip(k as int));
        let d = trim_chars(&restc);
        match self.absolute(u.as_str()) {
            Some(a) => {
                let mut x = self.proxied_url(a.as_str());
                let ghost base = x@;
                if d.len() > 0 {
                    push_str(&mut x, " ");
                    crate::text::push_range(&mut x, &d, 0, d.len());
                    assert(d@.subrange(0, d.len() as int) =~= d@);
                    assert(x@ =~= base + (" "@ + d@));
                } else {
                    assert(x@ =~= base + Seq::<char>::empty());
                }
                Some(x)
            },
            None => None,
        }
    }

    /// The new value of a `srcset` attribute: each comma-separated candidate rewritten,
    /// joined again with `", "`.
    pub fn rewrite_srcset(&self, v: &str) -> (r: String)
        ensures
            r@ == self.srcset_spec(v@),
    {
        let vc = chars_of(v);
        let mut parts: Vec<String> = Vec::new();
        let mut piece: Vec<char> = Vec::new();
        let ghost mut done: Seq<Seq<char>> = Seq::empty();
        let mut i: usize = 0;
        while i < vc.len()
            invariant
                i <= vc.len(),
                split_commas(vc@.take(i as int)) == done.push(piece@),
                string_views(parts@) == self.candidates_spec(done),
            decreases vc.len() - i,
        {
            assert(vc@.take(i + 1).drop_last() =~= vc@.take(i as int));
            assert(vc@.take(i + 1).last() == vc@[i as int]);
            if vc[i] == ',' {
                let x = self.rewrite_candidate(&piece);
                proof {
                    assert(done.push(piece@).drop_last() =~= done);
                }
                match x {
                    Some(x) => {
                        parts.push(x);
                    },
                    None => {},
                }
                proof {
                    done = done.push(piece@);
                    assert(string_views(parts@) =~= self.candidates_spec(done));
                }
                piece = Vec::new();
                assert(split_commas(vc@.take(i + 1)) =~= done.push(piece@));
            } else {
                piece.push(vc[i]);
                assert(split_commas(vc@.take(i + 1)) =~= done.push(piece@));
            }
            i = i + 1;
        }
        let x = self.rewrite_candidate(&piece);
        proof {
            assert(done.push(piece@).drop_last() =~= done);
        }
        match x {
            Some(x) => {
                parts.push(x);
            },
            None => {},
        }
        proof {
            done = done.push(piece@);
            assert(vc@.take(vc.len() as int) =~= vc@);
            assert(string_views(parts@) =~= self.candidates_spec(split_commas(v@)));
        }
        let mut r = String::new();
        let mut j: usize = 0;
        while j < parts.len()
            invariant
                j <= parts.len(),
                r@ == join_comma(string_views(parts@).take(j as int)),
            decreases parts.len() - j,
        {
            assert(string_views(parts@).take(j + 1).drop_last() =~= string_views(parts@).take(
                j as int,
            ));
            if j > 0 {
                push_str(&mut r, ", ");
            }
            push_str(&mut r, parts[j].as_str());
            j = j + 1;
            assert(r@ =~= join_comma(string_views(parts@).take(j as int)));
        }
        assert(string_views(parts@).take(j as int) =~= string_views(parts@));
        r
    }
}

/// A domain-root `src` (one slash) resolves against the page's scheme and host, not its
/// path, and is served through the proxy.
pub proof fn lemma_domain_root_src(ctx: RewriteContext, v: Seq<char>)
    requires
        begins_with(v, "/"@),
        !begins_with(v, "//"@),
    ensures
        ctx.src_spec(v) == Some(
            proxied(ctx.prefix@, ctx.target.scheme@ + "://"@ + ctx.target.host_or_local() + v),
        ),
{
    reveal_strlit("/");
    reveal_strlit("data:");
    reveal_strlit("blob:");
    reveal_strlit("http://localhost:");
    reveal_strlit("https://");
    reveal_strlit("http://");
    assert(v.subrange(0, 1)[0] == '/');
    assert(!kept_source(v)) by {
        if begins_with(v, "data:"@) {
            assert(v.subrange(0, 5)[0] == 'd');
        }
        if begins_with(v, "blob:"@) {
            assert(v.subrange(0, 5)[0] == 'b');
        }
        if begins_with(v, "http://localhost:"@) {
            assert(v.subrange(0, 17)[0] == 'h');
        }
        if begins_with(v, "https://"@) {
            assert(v.subrange(0, 8)[0] == 'h');
        }
        if begins_with(v, "http://"@) {
            assert(v.subrange(0, 7)[0] == 'h');
        }
    }
}

/// A relative navigation link that resolves on the page's origin becomes its resolved
/// path under the proxy root, leading slash dropped, so that following it comes back to
/// the page handler.
pub proof fn lemma_relative_nav_href(ctx: RewriteContext, v: Seq<char>, resolved: Seq<char>)
    requires
        !kept_link(v),
        !begins_with(v, "/"@),
        joined_href(ctx.target.href@, v) == Some(resolved),
        begins_with(resolved, ctx.target.origin_spec() + "/"@),
    ensures
        ctx.nav_href_spec(v) == Some(
            resolved.subrange(
                ctx.target.origin_spec().len() as int + 1,
                resolved.len() as int,
            ),
        ),
{
    reveal_strlit("/");
}

} // verus!
