//! The ways a lookup can end without a summary.

use vstd::prelude::*;

verus! {

/// Why a lookup produced no summary.
#[derive(Debug, Clone, Copy, PartialEq, Eq, Structural)]
pub enum LookupError {
    /// The search named no article.
    ArticleNotFound,
    /// The server answered with a status outside the success range.
    UnsuccessfulResponse,
    /// The request could not be sent, or its reply could not be read as JSON.
    UrlError,
    /// The reply was JSON but lacked an expected text field.
    ParseError,
}

impl LookupError {
    /// The sentence shown to the user for this error.
    pub open spec fn message_text(self) -> Seq<char> {
        match self {
            LookupError::ArticleNotFound => "Article not found."@,
            LookupError::UnsuccessfulResponse => "Unsuccessful response."@,
            LookupError::UrlError => "Url error, can't reach the resource."@,
            LookupError::ParseError => "Parse error, couldn't parse url."@,
        }
    }

    /// Renders the error as the sentence shown to the user.
    pub fn message(&self) -> (text: String)
        ensures
            text@ == self.message_text(),
    {
        match self {
            LookupError::ArticleNotFound => "Article not found.".to_owned(),
            LookupError::UnsuccessfulResponse => "Unsuccessful response.".to_owned(),
            LookupError::UrlError => "Url error, can't reach the resource.".to_owned(),
            LookupError::ParseError => "Parse error, couldn't parse url.".to_owned(),
        }
    }
}

/// A reply whose body `serde_json` cannot read counts as a `UrlError`.
impl From<serde_json::Error> for LookupError {
    fn from(_error: serde_json::Error) -> (made: LookupError) {
        LookupError::UrlError
    }
}

impl vstd::std_specs::convert::FromSpecImpl<serde_json::Error> for LookupError {
    open spec fn obeys_from_spec() -> bool {
        true
    }

    open spec fn from_spec(_error: serde_json::Error) -> LookupError {
        LookupError::UrlError
    }
}

} // verus!
