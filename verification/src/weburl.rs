//! Taking URLs apart.

use crate::alike::Alike;
use url::Url;
use vstd::prelude::*;

verus! {

/// The error of the `url` crate's parser.
#[verifier::external_type_specification]
#[verifier::external_body]
pub struct ExUrlParseError(url::ParseError);

/// The parts of a URL that a request is signed with.
pub struct UrlParts {
    /// The path, percent-encoded.
    pub path: String,
    /// The query, percent-encoded.
    pub query: Option<String>,
}

/// The text of the parts of a URL.
pub struct UrlPartsView {
    pub path: Seq<char>,
    pub query: Option<Seq<char>>,
}

impl View for UrlParts {
    type V = UrlPartsView;

    open spec fn view(&self) -> UrlPartsView {
        UrlPartsView {
            path: self.path@,
            query: self.query.model(),
        }
    }
}

/// What parsing `text` as an absolute URL gives.
pub uninterp spec fn parsed_url(text: Seq<char>) -> Result<UrlPartsView, url::ParseError>;

/// Calls `Url::parse` of the `url` crate, and `Url::path` and `Url::query` on
/// what it gives. The outcome is a function of the text.
#[verifier::external_body]
pub(crate) fn parse_url(text: &str) -> (parts: Result<UrlParts, url::ParseError>)
    ensures
        match parts {
            Ok(parts) => parsed_url(text@) == Ok::<UrlPartsView, url::ParseError>(parts@),
            Err(error) => parsed_url(text@) == Err::<UrlPartsView, url::ParseError>(error),
        },
{
    let url = Url::parse(text)?;
    Ok(UrlParts { path: url.path().to_owned(), query: url.query().map(str::to_owned) })
}

} // verus!
