use reader_proxy::article::{
    classify_article, classify_extraction, html_content_type, matches_empty_pattern,
    screen_document, screen_document_with, ArticleOutcome, Screening, CANONICAL_EMPTY,
    FALLBACK_SIGNAL,
};
use reader_proxy::error::FetchError;
use reader_proxy::target::TargetUrl;

fn page() -> TargetUrl {
    TargetUrl::parse("https://example.com/blog/post").unwrap()
}

fn html() -> Option<String> {
    Some("text/html; charset=utf-8".to_string())
}

#[test]
fn canonical_empty_document_falls_back() {
    let r = classify_article(&page(), &html(), CANONICAL_EMPTY);
    assert_eq!(r, Ok(ArticleOutcome::Fallback));
    assert_eq!(r.unwrap().into_wire(), FALLBACK_SIGNAL);
}

#[test]
fn canonical_empty_document_without_content_type_falls_back() {
    let r = classify_article(&page(), &None, CANONICAL_EMPTY);
    assert_eq!(r, Ok(ArticleOutcome::Fallback));
}

#[test]
fn article_with_long_paragraph_yields_content() {
    let text = "The proxy fetches the page, rewrites every relative address, and serves it again, \
                so that the reader keeps images, styles and links working, even inside a frame. \
                Extraction picks the main block of text, scores its paragraphs, and drops the rest.";
    let body = format!(
        "<!DOCTYPE html><html><head><title>Post</title></head><body><article><p>{}</p><p>{}</p></article></body></html>",
        text, text
    );
    let r = classify_article(&page(), &html(), &body).unwrap();
    match r {
        ArticleOutcome::Content(c) => {
            assert!(!c.trim().is_empty());
            assert!(c.contains("Extraction picks the main block"));
            assert_ne!(c, FALLBACK_SIGNAL);
        }
        ArticleOutcome::Fallback => panic!("expected content"),
    }
}

#[test]
fn non_html_content_type_is_rejected() {
    let r = classify_article(&page(), &Some("image/png".to_string()), "<p>hello</p>");
    assert_eq!(r, Err(FetchError::UnsupportedContentType("image/png".to_string())));
}

#[test]
fn xhtml_content_type_is_accepted() {
    assert!(html_content_type("application/xhtml+xml"));
    assert!(html_content_type("text/html"));
    assert!(!html_content_type("application/json"));
}

#[test]
fn blank_body_is_an_empty_response() {
    let r = classify_article(&page(), &html(), "  \n\t ");
    assert_eq!(r, Err(FetchError::EmptyResponse));
}

#[test]
fn short_document_without_content_tags_falls_back() {
    let r = classify_article(&page(), &html(), "<html><body>hello</body></html>");
    assert_eq!(r, Ok(ArticleOutcome::Fallback));
}

#[test]
fn short_document_with_empty_head_and_body_falls_back() {
    let r = screen_document(&html(), "<html lang=\"en\"><head></head><body></body></html>");
    assert_eq!(r, Screening::Fallback);
}

#[test]
fn control_characters_make_binary_content() {
    let body = format!("\u{1}<div>{}</div>", "x".repeat(200));
    let r = classify_article(&page(), &html(), &body);
    assert_eq!(r, Err(FetchError::BinaryContent));
}

#[test]
fn spaced_empty_document_matches_a_pattern() {
    let body = format!(
        "<!DOCTYPE html><html><head>{}</head><body>\n</body></html>",
        " ".repeat(150)
    );
    assert!(matches_empty_pattern(&body));
    assert_eq!(screen_document(&html(), &body), Screening::Fallback);
    assert!(!matches_empty_pattern("<!DOCTYPE html><html><head></head><body><p>x</p></body></html>"));
}

#[test]
fn pattern_verdict_decides_after_the_binary_check() {
    let body = format!("<html><body><div>{}</div></body></html>", "word ".repeat(60));
    assert_eq!(screen_document_with(&html(), &body, true), Screening::Fallback);
    assert_eq!(screen_document_with(&html(), &body, false), Screening::Extract);
}

#[test]
fn small_body_without_block_tags_falls_back() {
    let body = format!("<html><body><span>{}</span></body></html>", "a".repeat(140));
    assert!(body.len() >= 150 && body.len() < 200);
    assert_eq!(screen_document(&html(), &body), Screening::Fallback);
}

#[test]
fn extraction_output_is_classified() {
    assert_eq!(classify_extraction(None), ArticleOutcome::Fallback);
    assert_eq!(classify_extraction(Some("   ".to_string())), ArticleOutcome::Fallback);
    assert_eq!(
        classify_extraction(Some("<html><head></head><body>x</body></html>".to_string())),
        ArticleOutcome::Fallback
    );
    assert_eq!(
        classify_extraction(Some(CANONICAL_EMPTY.to_string())),
        ArticleOutcome::Fallback
    );
    let long = format!("<div>{}</div>", "y".repeat(120));
    assert_eq!(
        classify_extraction(Some(long.clone())),
        ArticleOutcome::Content(long)
    );
    assert_eq!(
        classify_extraction(Some("<div>short but real</div>".to_string())),
        ArticleOutcome::Content("<div>short but real</div>".to_string())
    );
}

#[test]
fn errors_have_their_messages() {
    assert_eq!(
        FetchError::AuthRequired("https://example.com".to_string()).message(),
        "AUTH_REQUIRED:https://example.com"
    );
    assert_eq!(
        FetchError::UnsupportedContentType("image/png".to_string()).message(),
        "Content type 'image/png' is not HTML"
    );
    assert_eq!(FetchError::EmptyResponse.message(), "Fetched HTML content is empty.");
    assert_eq!(
        FetchError::NetworkFailure("timed out".to_string()).message(),
        "timed out"
    );
}

#[test]
fn invalid_url_is_rejected() {
    assert_eq!(TargetUrl::parse("not a url"), Err(FetchError::InvalidUrl));
}
