use vstd::prelude::*;

verus! {

/// What can go wrong between a request and a usable page.
#[derive(Debug, Clone, PartialEq, Eq)]
pub enum FetchError {
    /// The address is not an absolute URL.
    InvalidUrl,
    /// The upstream could not be reached (connection, timeout, name lookup).
    NetworkFailure(String),
    /// The upstream answered with a content type that is not HTML; it carries that type.
    UnsupportedContentType(String),
    /// The body was empty once white space was trimmed.
    EmptyResponse,
    /// The start of the body holds control characters: not text.
    BinaryContent,
    /// The upstream answered 401; it carries the origin to ask credentials for.
    AuthRequired(String),
    /// A failure upstream other than authentication.
    UpstreamGatewayError,
    /// The HTML could not be rewritten.
    RewriteFailure,
}

/// The string form of `AuthRequired(origin)` at the command boundary.
pub open spec fn auth_required_message(origin: Seq<char>) -> Seq<char> {
    "AUTH_REQUIRED:"@ + origin
}

impl FetchError {
    /// The message handed to the host application.
    pub open spec fn message_spec(&self) -> Seq<char> {
        match self {
            FetchError::InvalidUrl => "Invalid URL"@,
            FetchError::NetworkFailure(m) => m@,
            FetchError::UnsupportedContentType(t) => "Content type '"@ + t@ + "' is not HTML"@,
            FetchError::EmptyResponse => "Fetched HTML content is empty."@,
            FetchError::BinaryContent => "Content appears to be binary or corrupted."@,
            FetchError::AuthRequired(o) => auth_required_message(o@),
            FetchError::UpstreamGatewayError => "Bad gateway"@,
            FetchError::RewriteFailure => "The page could not be rewritten"@,
        }
    }

    /// The message handed to the host application.
    pub fn message(&self) -> (r: String)
        ensures
            r@ == self.message_spec(),
    {
        let mut r = String::new();
        match self {
            FetchError::InvalidUrl => crate::text::push_str(&mut r, "Invalid URL"),
            FetchError::NetworkFailure(m) => crate::text::push_str(&mut r, m.as_str()),
            FetchError::UnsupportedContentType(t) => {
                crate::text::push_str(&mut r, "Content type '");
                crate::text::push_str(&mut r, t.as_str());
                crate::text::push_str(&mut r, "' is not HTML");
            },
            FetchError::EmptyResponse => crate::text::push_str(
                &mut r,
                "Fetched HTML content is empty.",
            ),
            FetchError::BinaryContent => crate::text::push_str(
                &mut r,
                "Content appears to be binary or corrupted.",
            ),
            FetchError::AuthRequired(o) => {
                crate::text::push_str(&mut r, "AUTH_REQUIRED:");
                crate::text::push_str(&mut r, o.as_str());
            },
            FetchError::UpstreamGatewayError => crate::text::push_str(&mut r, "Bad gateway"),
            FetchError::RewriteFailure => crate::text::push_str(
                &mut r,
                "The page could not be rewritten",
            ),
        }
        assert(r@ =~= self.message_spec());
        r
    }
}

} // verus!
