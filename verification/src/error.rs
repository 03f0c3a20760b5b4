//! What can go wrong with a fetch, and how an error code of the service is read.

use vstd::prelude::*;
use vstd::string::StringExecFns;

verus! {

/// The ways in which a fetch fails.
#[derive(Debug, Clone, Copy, PartialEq, Eq)]
pub enum NewsApiError {
    /// The request did not get through, or the server refused it.
    RequestFailed,
    /// The reply's body could not be read.
    ResponseToStringFailed,
    /// The reply's body is not an envelope.
    ArticleParseFailed,
    /// The address of the request could not be built.
    UrlParseingFailed,
    /// The service answered and rejected the request; the text says why.
    BadRequest(&'static str),
    /// As `RequestFailed`, from a request made by a cooperative scheduler.
    AsyncRequestFailed,
}

/// The error that belongs to an error code: a rejection with the
/// key-disabled message for the code `apiKeyDisable`, one with the
/// unknown-error message for any other code and for none.
pub open spec fn classified(code: Option<Seq<char>>) -> NewsApiError {
    if code == Some("apiKeyDisable"@) {
        NewsApiError::BadRequest("Your API key has been disables")
    } else {
        NewsApiError::BadRequest("Unknown error")
    }
}

impl NewsApiError {
    /// The error as a line of text.
    pub fn message(&self) -> (m: String)
        ensures
            m@ == match *self {
                NewsApiError::RequestFailed => "Failed fetching articles"@,
                NewsApiError::ResponseToStringFailed => "Failed converting response to string"@,
                NewsApiError::ArticleParseFailed => "Article Parsing failed"@,
                NewsApiError::UrlParseingFailed => "Url Parsing failed"@,
                NewsApiError::BadRequest(r) => "Request failed: "@ + r@,
                NewsApiError::AsyncRequestFailed => "Async Request failed"@,
            },
    {
        match self {
            NewsApiError::RequestFailed => String::from_str("Failed fetching articles"),
            NewsApiError::ResponseToStringFailed => String::from_str(
                "Failed converting response to string",
            ),
            NewsApiError::ArticleParseFailed => String::from_str("Article Parsing failed"),
            NewsApiError::UrlParseingFailed => String::from_str("Url Parsing failed"),
            NewsApiError::BadRequest(r) => String::from_str("Request failed: ").concat(r),
            NewsApiError::AsyncRequestFailed => String::from_str("Async Request failed"),
        }
    }
}

/// Reads the error code of a rejected request. Every code, and none, gives
/// a `BadRequest`; which reason it carries is told by `classified`.
pub fn map_parsing_err(code: Option<String>) -> (e: NewsApiError)
    ensures
        e == classified(crate::article::text_of(code)),
{
    match code {
        Some(c) => {
            let disabled = String::from_str("apiKeyDisable");
            if c == disabled {
                NewsApiError::BadRequest("Your API key has been disables")
            } else {
                NewsApiError::BadRequest("Unknown error")
            }
        },
        None => NewsApiError::BadRequest("Unknown error"),
    }
}

} // verus!
