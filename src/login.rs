use vstd::prelude::*;
use crate::rewrite::{decimal, push_decimal};
use crate::target::opt_view;
use crate::text::{push_str, chars_of, trim_chars, string_of_range, trimmed};

verus! {

/// One field of a login form.
#[derive(Debug, Clone, PartialEq, Eq)]
pub struct FormField {
    pub name: String,
    pub value: String,
}

/// A scripted form login: where to post, the fields in order, and an optional CSS
/// selector for a confirmation text in the answer.
#[derive(Debug, Clone, PartialEq, Eq)]
pub struct LoginRequest {
    pub login_url: String,
    pub fields: Vec<FormField>,
    pub response_selector: Option<String>,
}

/// The result of a form login.
#[derive(Debug, Clone, PartialEq, Eq)]
pub struct LoginResponse {
    pub success: bool,
    pub message: String,
    pub status_code: u16,
    pub extracted_text: Option<String>,
}

/// The reason phrase that HTTP gives a status code, or `None` for a code without one.
pub uninterp spec fn reason_phrase_of(code: u16) -> Option<Seq<char>>;

/// Relies on `reqwest::StatusCode::from_u16` and `StatusCode::canonical_reason`: the
/// standard reason phrase of a code; codes outside 100..=999 are no status codes.
#[verifier::external_body]
fn reason_phrase(code: u16) -> (r: Option<String>)
    ensures
        opt_view(r) == reason_phrase_of(code),
        code < 100 || code > 999 ==> r is None,
{
    reqwest::StatusCode::from_u16(code).ok().and_then(|s| s.canonical_reason()).map(
        |s| s.to_string(),
    )
}

/// The texts of the elements of `html` that `selector` selects, in document order, or
/// `None` where the selector does not parse.
pub uninterp spec fn selected_texts_of(html: Seq<char>, selector: Seq<char>) -> Option<
    Seq<Seq<char>>,
>;

pub open spec fn string_views(v: Seq<String>) -> Seq<Seq<char>> {
    v.map_values(|s: String| s@)
}

/// Relies on `scraper::Selector::parse`, `scraper::Html::parse_document`, `Html::select`
/// and `ElementRef::text`: the text of each selected element, in document order.
#[verifier::external_body]
fn selected_texts(html: &str, selector: &str) -> (r: Option<Vec<String>>)
    ensures
        match r {
            Some(v) => selected_texts_of(html@, selector@) == Some(string_views(v@)),
            None => selected_texts_of(html@, selector@) is None,
        },
{
    let selector = scraper::Selector::parse(selector).ok()?;
    let document = scraper::Html::parse_document(html);
    Some(document.select(&selector).map(|e| e.text().collect::<String>()).collect())
}

/// The texts one after another.
pub open spec fn concat(ts: Seq<Seq<char>>) -> Seq<char>
    decreases ts.len(),
{
    if ts.len() == 0 {
        Seq::empty()
    } else {
        concat(ts.drop_last()) + ts.last()
    }
}

/// The confirmation text: the selected texts together, trimmed; `None` where the
/// selector did not parse or selected no text at all.
pub open spec fn extracted_spec(texts: Option<Seq<Seq<char>>>) -> Option<Seq<char>> {
    match texts {
        None => None,
        Some(ts) => if concat(ts).len() == 0 {
            None
        } else {
            Some(trimmed(concat(ts)))
        },
    }
}

/// The message of a login answer: `Status: <code> <reason>`.
pub open spec fn status_message(code: u16, reason: Option<Seq<char>>) -> Seq<char> {
    "Status: "@ + decimal(code as nat) + " "@ + match reason {
        Some(r) => r,
        None => "<unknown status code>"@,
    }
}

/// A login succeeded where the answer is 2xx or 3xx.
pub open spec fn login_success_spec(code: u16) -> bool {
    200 <= code && code <= 399
}

/// The confirmation text from the selected texts.
pub fn extracted_text(texts: Option<Vec<String>>) -> (r: Option<String>)
    ensures
        opt_view(r) == extracted_spec(
            match texts {
                Some(v) => Some(string_views(v@)),
                None => None,
            },
        ),
{
    match texts {
        None => None,
        Some(v) => {
            let mut all = String::new();
            let mut i: usize = 0;
            while i < v.len()
                invariant
                    i <= v.len(),
                    all@ == concat(string_views(v@).take(i as int)),
                decreases v.len() - i,
            {
                assert(string_views(v@).take(i + 1).drop_last() =~= string_views(v@).take(
                    i as int,
                ));
                push_str(&mut all, v[i].as_str());
                i = i + 1;
            }
            assert(string_views(v@).take(i as int) =~= string_views(v@));
            let ac = chars_of(all.as_str());
            if ac.len() == 0 {
                None
            } else {
                let t = trim_chars(&ac);
                let r = string_of_range(&t, 0, t.len());
                assert(t@.subrange(0, t.len() as int) =~= t@);
                Some(r)
            }
        },
    }
}

/// The answer of a login from its status, the reason phrase of that status, and the
/// selected texts, if a selector was given.
pub fn login_response_with(status: u16, reason: Option<String>, texts: Option<Vec<String>>) -> (r:
    LoginResponse)
    ensures
        r.success == login_success_spec(status),
        r.status_code == status,
        r.message@ == status_message(status, opt_view(reason)),
        opt_view(r.extracted_text) == extracted_spec(
            match texts {
                Some(v) => Some(string_views(v@)),
                None => None,
            },
        ),
{
    let mut message = String::new();
    push_str(&mut message, "Status: ");
    push_decimal(&mut message, status);
    push_str(&mut message, " ");
    match &reason {
        Some(p) => push_str(&mut message, p.as_str()),
        None => push_str(&mut message, "<unknown status code>"),
    }
    assert(message@ =~= status_message(status, opt_view(reason)));
    LoginResponse {
        success: 200 <= status && status <= 399,
        message,
        status_code: status,
        extracted_text: extracted_text(texts),
    }
}

/// The selector to read a confirmation with: a given, non-empty one.
pub open spec fn usable_selector(selector: Option<String>) -> Option<Seq<char>> {
    match selector {
        Some(s) => if s@.len() > 0 {
            Some(s@)
        } else {
            None
        },
        None => None,
    }
}

/// The answer of a login from the status and body that the login POST received: 2xx and
/// 3xx count as success, and the selector, where given and not empty, picks the
/// confirmation text out of the body.
pub fn login_outcome(status: u16, body: &str, selector: &Option<String>) -> (r: LoginResponse)
    ensures
        r.success == login_success_spec(status),
        r.status_code == status,
        r.message@ == status_message(status, reason_phrase_of(status)),
        opt_view(r.extracted_text) == match usable_selector(*selector) {
            Some(s) => extracted_spec(selected_texts_of(body@, s)),
            None => None,
        },
{
    let reason = reason_phrase(status);
    let texts = match selector {
        Some(s) => if s.as_str().unicode_len() > 0 {
            selected_texts(body, s.as_str())
        } else {
            None
        },
        None => None,
    };
    login_response_with(status, reason, texts)
}

/// The form fields as name and value pairs, in order.
pub fn form_pairs(fields: &Vec<FormField>) -> (r: Vec<(String, String)>)
    ensures
        r.len() == fields.len(),
        forall|i: int|
            0 <= i < r.len() ==> r[i].0@ == fields[i].name@ && r[i].1@ == fields[i].value@,
{
    let mut r: Vec<(String, String)> = Vec::new();
    let mut i: usize = 0;
    while i < fields.len()
        invariant
            i <= fields.len(),
            r.len() == i,
            forall|j: int|
                0 <= j < i ==> r[j].0@ == fields[j].name@ && r[j].1@ == fields[j].value@,
        decreases fields.len() - i,
    {
        r.push((fields[i].name.clone(), fields[i].value.clone()));
        i = i + 1;
    }
    r
}

} // verus!
