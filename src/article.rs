use vstd::prelude::*;
use crate::error::FetchError;
use crate::target::{TargetUrl, opt_view};
use crate::text::{
    is_control, is_white, trimmed, trim_start, trim_end, includes, occurs_at, without, chars_of, trim_chars, contains_str, without_char,
    string_of_range,
};

verus! {

/// The string that stands for "show the page through the proxy instead".
pub const FALLBACK_SIGNAL: &'static str = "READABILITY_FAILED_FALLBACK";

/// The document that script-only pages serve before they render anything.
pub const CANONICAL_EMPTY: &'static str = "<!DOCTYPE html><html><head></head><body></body></html>";

/// Patterns of a document with nothing in it, matched against the trimmed body with its
/// line breaks taken out.
pub const EMPTY_PATTERN_UPPER: &'static str = "^<!DOCTYPE html><html><head></head><body></body></html>$";

pub const EMPTY_PATTERN_LOWER: &'static str = "^<!doctype html><html><head></head><body></body></html>$";

pub const EMPTY_PATTERN_BARE: &'static str = "^<html><head></head><body></body></html>$";

pub const EMPTY_PATTERN_SPACED: &'static str = "^<!DOCTYPE html><html><head>\\s*</head><body>\\s*</body></html>$";

/// What the extractor hands back: article HTML, or the signal to fall back to the proxy.
#[derive(Debug, Clone, PartialEq, Eq)]
pub enum ArticleOutcome {
    Content(String),
    Fallback,
}

impl ArticleOutcome {
    /// The article HTML, or `None` for the fallback signal.
    pub open spec fn content_spec(&self) -> Option<Seq<char>> {
        match self {
            ArticleOutcome::Content(c) => Some(c@),
            ArticleOutcome::Fallback => None,
        }
    }

    /// The string form at the command boundary: the HTML, or the fallback signal.
    pub fn into_wire(self) -> (r: String)
        ensures
            match self {
                ArticleOutcome::Content(c) => r@ == c@,
                ArticleOutcome::Fallback => r@ == FALLBACK_SIGNAL@,
            },
    {
        match self {
            ArticleOutcome::Content(c) => c,
            ArticleOutcome::Fallback => {
                let mut r = String::new();
                crate::text::push_str(&mut r, FALLBACK_SIGNAL);
                r
            },
        }
    }
}

/// The verdict of the checks made on a response before content extraction.
#[derive(Debug, Clone, Copy, PartialEq, Eq)]
pub enum Screening {
    UnsupportedContentType,
    EmptyResponse,
    BinaryContent,
    Fallback,
    Extract,
}

/// A content type that names HTML or XHTML.
pub open spec fn is_html_type(t: Seq<char>) -> bool {
    includes(t, "text/html"@) || includes(t, "application/xhtml"@)
}

/// A tag that marks some content in a short document.
pub open spec fn mentions_content_tag(t: Seq<char>) -> bool {
    includes(t, "<p"@) || includes(t, "<div"@) || includes(t, "<article"@) || includes(t, "<main"@) || includes(
        t,
        "<section"@,
    ) || includes(t, "<h1"@) || includes(t, "<h2"@) || includes(t, "<span"@)
}

/// A tag that holds a block of text.
pub open spec fn mentions_block_tag(t: Seq<char>) -> bool {
    includes(t, "<p"@) || includes(t, "<div"@) || includes(t, "<article"@) || includes(t, "<main"@)
}

/// A trimmed document under 150 characters that has an empty head and body, or no
/// content tag at all.
pub open spec fn short_shell(t: Seq<char>) -> bool {
    t.len() < 150 && ((includes(t, "<head></head>"@) && includes(t, "<body></body>"@))
        || !mentions_content_tag(t))
}

/// A control character other than a line break or a tab among the first 100.
pub open spec fn binary_start(b: Seq<char>) -> bool {
    exists|i: int|
        0 <= i < 100 && i < b.len() && #[trigger] is_control(b[i]) && b[i] != '\n' && b[i] != '\r'
            && b[i] != '\t'
}

/// The trimmed body with its line breaks taken out.
pub open spec fn normalized(b: Seq<char>) -> Seq<char> {
    without(without(trimmed(b), '\n'), '\r')
}

/// The checks before extraction, in order; `n_bytes` is the body's length in UTF-8 bytes
/// and `pattern_hit` says whether an empty-document pattern matched the normalized body.
pub open spec fn screen_spec(
    content_type: Option<Seq<char>>,
    body: Seq<char>,
    n_bytes: int,
    pattern_hit: bool,
) -> Screening {
    let t = trimmed(body);
    if content_type is Some && !is_html_type(content_type->0) {
        Screening::UnsupportedContentType
    } else if t.len() == 0 {
        Screening::EmptyResponse
    } else if t == CANONICAL_EMPTY@ || short_shell(t) {
        Screening::Fallback
    } else if binary_start(body) {
        Screening::BinaryContent
    } else if pattern_hit {
        Screening::Fallback
    } else if n_bytes < 200 && !mentions_block_tag(body) {
        Screening::Fallback
    } else {
        Screening::Extract
    }
}

/// What the regular-expression engine says of `pattern` on `text`: `None` where the
/// pattern does not compile.
pub uninterp spec fn regex_match_of(pattern: Seq<char>, text: Seq<char>) -> Option<bool>;

/// Relies on `regex::Regex::new` and `Regex::is_match`: whether `pattern` matches
/// somewhere in `text`, or `None` where the pattern does not compile.
#[verifier::external_body]
fn regex_is_match(pattern: &str, text: &str) -> (r: Option<bool>)
    ensures
        r == regex_match_of(pattern@, text@),
{
    regex::Regex::new(pattern).ok().map(|re| re.is_match(text))
}

/// One of the empty-document patterns matches `n`.
pub open spec fn empty_pattern_hit(n: Seq<char>) -> bool {
    regex_match_of(EMPTY_PATTERN_UPPER@, n) == Some(true) || regex_match_of(
        EMPTY_PATTERN_LOWER@,
        n,
    ) == Some(true) || regex_match_of(EMPTY_PATTERN_BARE@, n) == Some(true) || regex_match_of(
        EMPTY_PATTERN_SPACED@,
        n,
    ) == Some(true)
}

/// The article HTML that content extraction finds in `html` read at `url`, or `None`
/// where it fails.
pub uninterp spec fn readability_of(html: Seq<char>, url: Seq<char>) -> Option<Seq<char>>;

/// Relies on `readability::extractor::extract`: the main content of `html`, as HTML.
/// `url` is a URL that the parser serialised; `Url::parse` turns it back into its type.
#[verifier::external_body]
fn readable_content(html: &str, url: &str) -> (r: Option<String>)
    ensures
        opt_view(r) == readability_of(html@, url@),
{
    let url = url::Url::parse(url).ok()?;
    let mut input = std::io::Cursor::new(html.as_bytes());
    readability::extractor::extract(&mut input, &url).ok().map(|p| p.content)
}

/// Extraction output that is empty, or short and shaped like an empty document, counts
/// as no content: `None` stands for the fallback signal.
pub open spec fn extraction_spec(extracted: Option<Seq<char>>) -> Option<Seq<char>> {
    match extracted {
        None => None,
        Some(c) => {
            let t = trimmed(c);
            if t.len() == 0 || (t.len() < 100 && (includes(t, "<head></head>"@) || t
                == CANONICAL_EMPTY@)) {
                None
            } else {
                Some(c)
            }
        },
    }
}

/// Whether the content type names HTML.
pub fn html_content_type(t: &str) -> (r: bool)
    ensures
        r == is_html_type(t@),
{
    let tc = chars_of(t);
    contains_str(&tc, "text/html") || contains_str(&tc, "application/xhtml")
}

fn binary_prefix(b: &Vec<char>) -> (r: bool)
    ensures
        r == binary_start(b@),
{
    let mut i: usize = 0;
    while i < 100 && i < b.len()
        invariant
            i <= 100,
            i <= b.len(),
            forall|j: int|
                0 <= j < i ==> !(is_control(b@[j]) && b@[j] != '\n' && b@[j] != '\r' && b@[j]
                    != '\t'),
        decreases b.len() - i,
    {
        let c = b[i];
        let u = c as u32;
        if (u <= 0x1f || (0x7f <= u && u <= 0x9f)) && c != '\n' && c != '\r' && c != '\t' {
            assert(is_control(b@[i as int]));
            return true;
        }
        i = i + 1;
    }
    false
}

/// The checks before extraction, with the verdict of the empty-document patterns given.
pub fn screen_document_with(content_type: &Option<String>, body: &str, pattern_hit: bool) -> (r:
    Screening)
    ensures
        r == screen_spec(opt_view(*content_type), body@, body.len() as int, pattern_hit),
{
    if let Some(t) = content_type {
        if !html_content_type(t.as_str()) {
            return Screening::UnsupportedContentType;
        }
    }
    let b = chars_of(body);
    let t = trim_chars(&b);
    if t.len() == 0 {
        return Screening::EmptyResponse;
    }
    let canonical = chars_of(CANONICAL_EMPTY);
    let mut same = t.len() == canonical.len();
    if same {
        let mut i: usize = 0;
        while i < t.len()
            invariant
                t.len() == canonical.len(),
                i <= t.len(),
                same == (forall|j: int| 0 <= j < i ==> t@[j] == canonical@[j]),
            decreases t.len() - i,
        {
            same = same && t[i] == canonical[i];
            i = i + 1;
        }
        assert(same ==> t@ =~= canonical@);
    }
    if same {
        return Screening::Fallback;
    }
    if t.len() < 150 {
        if contains_str(&t, "<head></head>") && contains_str(&t, "<body></body>") {
            return Screening::Fallback;
        }
        let has_content = contains_str(&t, "<p") || contains_str(&t, "<div") || contains_str(
            &t,
            "<article",
        ) || contains_str(&t, "<main") || contains_str(&t, "<section") || contains_str(&t, "<h1")
            || contains_str(&t, "<h2") || contains_str(&t, "<span");
        if !has_content {
            return Screening::Fallback;
        }
    }
    if binary_prefix(&b) {
        return Screening::BinaryContent;
    }
    if pattern_hit {
        return Screening::Fallback;
    }
    if body.len() < 200 && !(contains_str(&b, "<p") || contains_str(&b, "<div") || contains_str(
        &b,
        "<article",
    ) || contains_str(&b, "<main")) {
        return Screening::Fallback;
    }
    Screening::Extract
}

/// Whether one of the empty-document patterns matches the normalized body. A pattern that
/// does not compile matches nothing.
pub fn matches_empty_pattern(body: &str) -> (r: bool)
    ensures
        r == empty_pattern_hit(normalized(body@)),
{
    let b = chars_of(body);
    let t = trim_chars(&b);
    let n1 = without_char(&t, '\n');
    let n2 = without_char(&n1, '\r');
    let n = string_of_range(&n2, 0, n2.len());
    assert(n2@.subrange(0, n2@.len() as int) =~= n2@);
    let h1 = regex_is_match(EMPTY_PATTERN_UPPER, n.as_str());
    let h2 = regex_is_match(EMPTY_PATTERN_LOWER, n.as_str());
    let h3 = regex_is_match(EMPTY_PATTERN_BARE, n.as_str());
    let h4 = regex_is_match(EMPTY_PATTERN_SPACED, n.as_str());
    h1 == Some(true) || h2 == Some(true) || h3 == Some(true) || h4 == Some(true)
}

/// The checks before extraction.
pub fn screen_document(content_type: &Option<String>, body: &str) -> (r: Screening)
    ensures
        r == screen_spec(
            opt_view(*content_type),
            body@,
            body.len() as int,
            empty_pattern_hit(normalized(body@)),
        ),
{
    let hit = matches_empty_pattern(body);
    screen_document_with(content_type, body, hit)
}

/// What extraction output becomes: the article, or the fallback signal where it is
/// missing, empty or shaped like an empty document.
pub fn classify_extraction(extracted: Option<String>) -> (r: ArticleOutcome)
    ensures
        r.content_spec() == extraction_spec(opt_view(extracted)),
{
    match extracted {
        None => ArticleOutcome::Fallback,
        Some(c) => {
            let cc = chars_of(c.as_str());
            let t = trim_chars(&cc);
            if t.len() == 0 {
                return ArticleOutcome::Fallback;
            }
            if t.len() < 100 {
                let canonical = chars_of(CANONICAL_EMPTY);
                let mut same = t.len() == canonical.len();
                if same {
                    let mut i: usize = 0;
                    while i < t.len()
                        invariant
                            t.len() == canonical.len(),
                            i <= t.len(),
                            same == (forall|j: int| 0 <= j < i ==> t@[j] == canonical@[j]),
                        decreases t.len() - i,
                    {
                        same = same && t[i] == canonical[i];
                        i = i + 1;
                    }
                    assert(same ==> t@ =~= canonical@);
                }
                if same || contains_str(&t, "<head></head>") {
                    return ArticleOutcome::Fallback;
                }
            }
            ArticleOutcome::Content(c)
        },
    }
}

/// Classifies a fetched response: an error, the fallback signal, or the article HTML
/// that content extraction finds.
pub fn classify_article(url: &TargetUrl, content_type: &Option<String>, body: &str) -> (r: Result<
    ArticleOutcome,
    FetchError,
>)
    ensures
        ({
            let s = screen_spec(
                opt_view(*content_type),
                body@,
                body.len() as int,
                empty_pattern_hit(normalized(body@)),
            );
            &&& s == Screening::UnsupportedContentType <==> (r matches Err(
                FetchError::UnsupportedContentType(t),
            ) && opt_view(*content_type) == Some(t@))
            &&& s == Screening::EmptyResponse <==> r == Err::<ArticleOutcome, FetchError>(
                FetchError::EmptyResponse,
            )
            &&& s == Screening::BinaryContent <==> r == Err::<ArticleOutcome, FetchError>(
                FetchError::BinaryContent,
            )
            &&& s == Screening::Fallback ==> r == Ok::<ArticleOutcome, FetchError>(
                ArticleOutcome::Fallback,
            )
            &&& s == Screening::Extract ==> (r matches Ok(o) && o.content_spec() == extraction_spec(
                readability_of(body@, url.href@),
            ))
        }),
{
    match screen_document(content_type, body) {
        Screening::UnsupportedContentType => {
            let t = match content_type {
                Some(t) => t.clone(),
                None => String::new(),
            };
            Err(FetchError::UnsupportedContentType(t))
        },
        Screening::EmptyResponse => Err(FetchError::EmptyResponse),
        Screening::BinaryContent => Err(FetchError::BinaryContent),
        Screening::Fallback => Ok(ArticleOutcome::Fallback),
        Screening::Extract => {
            let extracted = readable_content(body, url.as_str());
            Ok(classify_extraction(extracted))
        },
    }
}

proof fn lemma_has_trim_start(s: Seq<char>, p: Seq<char>)
    ensures
        includes(trim_start(s), p) ==> includes(s, p),
    decreases s.len(),
{
    if s.len() > 0 && is_white(s[0]) {
        lemma_has_trim_start(s.drop_first(), p);
        if includes(s.drop_first(), p) {
            let i = choose|i: int| occurs_at(s.drop_first(), i, p);
            assert(s.drop_first().subrange(i, i + p.len()) =~= s.subrange(i + 1, i + 1 + p.len()));
            assert(occurs_at(s, i + 1, p));
        }
    }
}

proof fn lemma_has_trim_end(s: Seq<char>, p: Seq<char>)
    ensures
        includes(trim_end(s), p) ==> includes(s, p),
    decreases s.len(),
{
    if s.len() > 0 && is_white(s.last()) {
        lemma_has_trim_end(s.drop_last(), p);
        if includes(s.drop_last(), p) {
            let i = choose|i: int| occurs_at(s.drop_last(), i, p);
            assert(s.drop_last().subrange(i, i + p.len()) =~= s.subrange(i, i + p.len()));
            assert(occurs_at(s, i, p));
        }
    }
}

/// What occurs in the trimmed text occurs in the text.
pub proof fn lemma_has_trimmed(s: Seq<char>, p: Seq<char>)
    ensures
        includes(trimmed(s), p) ==> includes(s, p),
{
    lemma_has_trim_end(trim_start(s), p);
    lemma_has_trim_start(s, p);
}

/// A body that is exactly the empty document falls back to the proxy, whatever its size
/// in bytes and whatever the patterns say, where the content type, if given, names HTML.
pub proof fn lemma_canonical_empty_falls_back(
    content_type: Option<Seq<char>>,
    n_bytes: int,
    pattern_hit: bool,
)
    requires
        content_type is None || is_html_type(content_type->0),
    ensures
        screen_spec(content_type, CANONICAL_EMPTY@, n_bytes, pattern_hit) == Screening::Fallback,
{
    reveal_strlit("<!DOCTYPE html><html><head></head><body></body></html>");
    let s = CANONICAL_EMPTY@;
    assert(!is_white(s[0]));
    assert(trim_start(s) == s);
    assert(!is_white(s.last()));
    assert(trim_end(s) == s);
}

/// A document that mentions a paragraph, an article or a main element, is not an empty
/// head and body pair, has no control characters at its start and matches no
/// empty-document pattern goes on to content extraction.
pub proof fn lemma_content_document_extracts(
    content_type: Option<Seq<char>>,
    body: Seq<char>,
    n_bytes: int,
    pattern_hit: bool,
)
    requires
        content_type is None || is_html_type(content_type->0),
        includes(trimmed(body), "<p"@) || includes(trimmed(body), "<article"@) || includes(
            trimmed(body),
            "<main"@,
        ),
        !(includes(trimmed(body), "<head></head>"@) && includes(trimmed(body), "<body></body>"@)),
        !binary_start(body),
        !pattern_hit,
    ensures
        screen_spec(content_type, body, n_bytes, pattern_hit) == Screening::Extract,
{
    reveal_strlit("<!DOCTYPE html><html><head></head><body></body></html>");
    reveal_strlit("<head></head>");
    reveal_strlit("<body></body>");
    reveal_strlit("<p");
    reveal_strlit("<article");
    reveal_strlit("<main");
    let t = trimmed(body);
    let c = CANONICAL_EMPTY@;
    assert(c.subrange(21, 34) =~= "<head></head>"@);
    assert(occurs_at(c, 21, "<head></head>"@));
    assert(c.subrange(34, 47) =~= "<body></body>"@);
    assert(occurs_at(c, 34, "<body></body>"@));
    assert(t != c);
    assert(t.len() > 0);
    lemma_has_trimmed(body, "<p"@);
    lemma_has_trimmed(body, "<article"@);
    lemma_has_trimmed(body, "<main"@);
}

} // verus!
