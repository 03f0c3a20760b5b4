//! The request for one fetch, and the judgement of what came back.

use vstd::prelude::*;
use vstd::string::{StrSliceExecFns, StringExecFns};
use crate::article::{NewsApiResponse, NewsApiResponseView};
use crate::decode::{decode, envelope_in};
use crate::error::{classified, NewsApiError};

verus! {

/// Where the service lives.
pub const BASE_URL: &'static str = "https://newsapi.org/v2";

/// The longest address, in characters, that is handed on to a further
/// step. The address is kept by a crate that counts its bytes in 32 bits;
/// with this limit, and `MAX_PART_LEN` for what is added, no count
/// overflows, however the added text is escaped.
pub const MAX_ADDRESS_LEN: usize = 0x1000_0000;

/// The longest path segment or query string, in characters.
pub const MAX_PART_LEN: usize = 0x0400_0000;

/// The address that comes of another by `url::PathSegmentsMut::push` with
/// one segment, in the form in which `url::Url` writes an address. `None`
/// where `url::Url::parse` refuses the address, or where the address has
/// no path to append to.
pub uninterp spec fn url_with_segment(address: Seq<char>, segment: Seq<char>) -> Option<Seq<char>>;

/// The address that comes of another by `url::Url::set_query` with the
/// given query string, in the form in which `url::Url` writes an address.
/// `None` where `url::Url::parse` refuses the address.
pub uninterp spec fn url_with_query(address: Seq<char>, query: Seq<char>) -> Option<Seq<char>>;

/// Reads an address with `url::Url::parse`, appends one path segment with
/// `url::Url::path_segments_mut` and `url::PathSegmentsMut::push`, and
/// hands the new address back: `None` where the address cannot be read or
/// cannot take a path. The contract gives that answer the name
/// `url_with_segment` and claims no more. The crate stops the program
/// where an address grows beyond what 32 bits count: the limits keep every
/// call clear of that.
#[verifier::external_body]
fn push_segment(address: &str, segment: &str) -> (r: Option<String>)
    requires
        address@.len() <= MAX_ADDRESS_LEN,
        segment@.len() <= MAX_PART_LEN,
    ensures
        crate::article::text_of(r) == url_with_segment(address@, segment@),
{
    let mut parsed = url::Url::parse(address).ok()?;
    parsed.path_segments_mut().ok()?.push(segment);
    Some(String::from(parsed))
}

/// Reads an address with `url::Url::parse`, replaces its query string with
/// `url::Url::set_query`, and hands the new address back: `None` where the
/// address cannot be read. The contract gives that answer the name
/// `url_with_query` and claims no more. The limits are there for the same
/// reason as in `push_segment`.
#[verifier::external_body]
fn put_query(address: &str, query: &str) -> (r: Option<String>)
    requires
        address@.len() <= MAX_ADDRESS_LEN,
        query@.len() <= MAX_PART_LEN,
    ensures
        crate::article::text_of(r) == url_with_query(address@, query@),
{
    let mut parsed = url::Url::parse(address).ok()?;
    parsed.set_query(Some(query));
    Some(String::from(parsed))
}

/// The part of the service that a request asks.
#[derive(Debug, Clone, Copy, PartialEq, Eq, Structural)]
pub enum Endpoint {
    TopHeadlines,
}

impl Endpoint {
    /// The path segment that stands for the endpoint.
    pub open spec fn text(self) -> Seq<char> {
        match self {
            Endpoint::TopHeadlines => "top-headlines"@,
        }
    }

    pub fn to_string(&self) -> (s: String)
        ensures
            s@ == self.text(),
    {
        match self {
            Endpoint::TopHeadlines => String::from_str("top-headlines"),
        }
    }
}

/// The country whose headlines a request asks for.
#[derive(Debug, Clone, Copy, PartialEq, Eq, Structural)]
pub enum Country {
    In,
}

impl Country {
    /// The query value that stands for the country.
    pub open spec fn text(self) -> Seq<char> {
        match self {
            Country::In => "in"@,
        }
    }

    pub fn to_string(&self) -> (s: String)
        ensures
            s@ == self.text(),
    {
        match self {
            Country::In => String::from_str("in"),
        }
    }
}

/// The query string of a request: the one parameter `country` with the
/// country's text as its value.
pub open spec fn query_text(country: Country) -> Seq<char> {
    "country="@ + country.text()
}

/// The base address with one path segment more, the endpoint's text:
/// `None` where the base address is no address, cannot take a path, or is
/// longer than `MAX_ADDRESS_LEN` before or after.
pub open spec fn extended_url(base: Seq<char>, endpoint: Endpoint) -> Option<Seq<char>> {
    if base.len() > MAX_ADDRESS_LEN {
        None
    } else {
        match url_with_segment(base, endpoint.text()) {
            Some(extended) => if extended.len() <= MAX_ADDRESS_LEN {
                Some(extended)
            } else {
                None
            },
            None => None,
        }
    }
}

/// The address of a request: the base address, then one path segment,
/// the endpoint's text, then the query string of `query_text`. `None`
/// where `extended_url` has none.
pub open spec fn built_url(base: Seq<char>, endpoint: Endpoint, country: Country) -> Option<
    Seq<char>,
> {
    match extended_url(base, endpoint) {
        Some(extended) => url_with_query(extended, query_text(country)),
        None => None,
    }
}

/// Whether a text is within `MAX_ADDRESS_LEN`.
fn within_limit(text: &str) -> (b: bool)
    ensures
        b == (text@.len() <= MAX_ADDRESS_LEN),
{
    text.unicode_len() <= MAX_ADDRESS_LEN
}

/// The address of a request is the base address with exactly one path
/// segment appended and exactly one query parameter set. The segment is the
/// endpoint's text, which is not empty and holds no `/` that would part it
/// in two. The query string is `country=` and the country's text, which
/// holds no `&` that would start a second parameter and no `=` or `#`.
/// There is no address exactly where one of the two steps gives none, or
/// the first one that is too long for the second.
pub proof fn built_url_one_segment_one_parameter(
    base: Seq<char>,
    endpoint: Endpoint,
    country: Country,
)
    ensures
        endpoint.text().len() > 0,
        forall|i: int| 0 <= i < endpoint.text().len() ==> #[trigger] endpoint.text()[i] != '/',
        query_text(country).len() == 8 + country.text().len(),
        query_text(country).subrange(0, 8) == "country="@,
        query_text(country).subrange(8, query_text(country).len() as int) == country.text(),
        forall|i: int|
            0 <= i < country.text().len() ==> {
                let c = #[trigger] country.text()[i];
                c != '&' && c != '=' && c != '#'
            },
        built_url(base, endpoint, country) is Some <==> {
            &&& extended_url(base, endpoint) is Some
            &&& url_with_query(extended_url(base, endpoint)->Some_0, query_text(country)) is Some
        },
        extended_url(base, endpoint) is Some ==> extended_url(base, endpoint) == url_with_segment(
            base,
            endpoint.text(),
        ),
        built_url(base, endpoint, country) is Some ==> built_url(base, endpoint, country)
            == url_with_query(
            url_with_segment(base, endpoint.text())->Some_0,
            "country="@ + country.text(),
        ),
{
    reveal_strlit("top-headlines");
    reveal_strlit("in");
    reveal_strlit("country=");
    assert(query_text(country).subrange(0, 8) =~= "country="@);
    assert(query_text(country).subrange(8, query_text(country).len() as int) =~= country.text());
}

/// Builds the address of a request on a base address: `built_url`, or
/// `UrlParseingFailed` where that has none.
pub fn build_url(base: &str, endpoint: Endpoint, country: Country) -> (r: Result<
    String,
    NewsApiError,
>)
    ensures
        match built_url(base@, endpoint, country) {
            Some(address) => r is Ok && r->Ok_0@ == address,
            None => r == Err::<String, NewsApiError>(NewsApiError::UrlParseingFailed),
        },
{
    if !within_limit(base) {
        return Err(NewsApiError::UrlParseingFailed);
    }
    proof {
        reveal_strlit("top-headlines");
        reveal_strlit("in");
        reveal_strlit("country=");
    }
    let segment = endpoint.to_string();
    let extended = match push_segment(base, segment.as_str()) {
        Some(e) => e,
        None => {
            return Err(NewsApiError::UrlParseingFailed);
        },
    };
    if !within_limit(extended.as_str()) {
        return Err(NewsApiError::UrlParseingFailed);
    }
    let value = country.to_string();
    let query = String::from_str("country=").concat(value.as_str());
    match put_query(extended.as_str(), query.as_str()) {
        Some(address) => Ok(address),
        None => Err(NewsApiError::UrlParseingFailed),
    }
}

/// One request, ready to be sent with the method GET.
#[derive(Debug)]
pub struct Request {
    /// The full address.
    pub url: String,
    /// The value of the header `Authorization`: the key as it is, with no
    /// scheme before it.
    pub authorization: String,
}

/// What came of sending a request.
#[derive(Debug)]
pub enum Reply {
    /// The request did not get through, or the server refused it.
    TransportFailed,
    /// The same, where a cooperative scheduler made the request.
    AsyncTransportFailed,
    /// A reply came, but its body could not be read to the end.
    BodyUnreadable,
    /// The body was read, and this is its text.
    Body(String),
}

/// The result that an envelope stands for: the envelope itself where
/// its status is `ok`, else a rejection with the reason that its error
/// code gives.
pub open spec fn settled(envelope: NewsApiResponseView) -> Result<
    NewsApiResponseView,
    NewsApiError,
> {
    if envelope.status == "ok"@ {
        Ok(envelope)
    } else {
        Err(classified(envelope.code))
    }
}

/// The result that a reply stands for. A failure on the way is its own
/// error. A body that holds no envelope is a decode error, whatever else
/// it holds. A body that holds one gives what `settled` says of it.
pub open spec fn judged(reply: Reply) -> Result<NewsApiResponseView, NewsApiError> {
    match reply {
        Reply::TransportFailed => Err(NewsApiError::RequestFailed),
        Reply::AsyncTransportFailed => Err(NewsApiError::AsyncRequestFailed),
        Reply::BodyUnreadable => Err(NewsApiError::ResponseToStringFailed),
        Reply::Body(text) => match envelope_in(text@) {
            Some(envelope) => settled(envelope),
            None => Err(NewsApiError::ArticleParseFailed),
        },
    }
}

/// An envelope with the status `ok` is the result of the fetch, as it
/// came: every article, in the order of the service.
pub proof fn ok_envelope_is_returned(text: String, envelope: NewsApiResponseView)
    requires
        envelope_in(text@) == Some(envelope),
        envelope.status == "ok"@,
    ensures
        settled(envelope) == Ok::<NewsApiResponseView, NewsApiError>(envelope),
        judged(Reply::Body(text)) == Ok::<NewsApiResponseView, NewsApiError>(envelope),
        fetched(true, Reply::Body(text)) == Ok::<NewsApiResponseView, NewsApiError>(envelope),
{
}

/// An envelope with any other status is a rejection: with the key-disabled
/// message where its code is `apiKeyDisable`, with the unknown-error
/// message for every other code and for none.
pub proof fn other_envelope_is_bad_request(text: String, envelope: NewsApiResponseView)
    requires
        envelope_in(text@) == Some(envelope),
        envelope.status != "ok"@,
    ensures
        judged(Reply::Body(text)) == settled(envelope),
        envelope.code == Some("apiKeyDisable"@) ==> settled(envelope) == Err::<
            NewsApiResponseView,
            NewsApiError,
        >(NewsApiError::BadRequest("Your API key has been disables")),
        envelope.code != Some("apiKeyDisable"@) ==> settled(envelope) == Err::<
            NewsApiResponseView,
            NewsApiError,
        >(NewsApiError::BadRequest("Unknown error")),
{
}

/// A body that holds no envelope gives the decode error, before its
/// status could be looked at, and a reply without a body gives an error
/// too: none of them gives articles.
pub proof fn failed_reply_is_an_error(reply: Reply)
    requires
        reply matches Reply::Body(text) ==> envelope_in(text@) is None,
    ensures
        judged(reply) is Err,
        reply is Body ==> judged(reply) == Err::<NewsApiResponseView, NewsApiError>(
            NewsApiError::ArticleParseFailed,
        ),
{
}

/// What a client is, as plain values.
pub struct NewsAPIView {
    pub api_key: Seq<char>,
    pub endpoint: Endpoint,
    pub country: Country,
}

/// A client of the service: the key, and what to ask for.
#[derive(Debug)]
pub struct NewsAPI {
    api_key: String,
    endpoint: Endpoint,
    country: Country,
}

impl View for NewsAPI {
    type V = NewsAPIView;

    closed spec fn view(&self) -> NewsAPIView {
        NewsAPIView { api_key: self.api_key@, endpoint: self.endpoint, country: self.country }
    }
}

impl NewsAPI {
    /// A client with the given key that asks for the top headlines of India.
    pub fn new(api_key: &str) -> (api: NewsAPI)
        ensures
            api@ == (NewsAPIView {
                api_key: api_key@,
                endpoint: Endpoint::TopHeadlines,
                country: Country::In,
            }),
    {
        NewsAPI {
            api_key: String::from_str(api_key),
            endpoint: Endpoint::TopHeadlines,
            country: Country::In,
        }
    }

    /// Sets the endpoint and leaves the rest as it was.
    pub fn endpoint(&mut self, endpoint: Endpoint) -> (api: &mut NewsAPI)
        ensures
            api@ == (NewsAPIView { endpoint: endpoint, ..old(self)@ }),
            *final(self) == *final(api),
    {
        self.endpoint = endpoint;
        self
    }

    /// Sets the country and leaves the rest as it was.
    pub fn country(&mut self, country: Country) -> (api: &mut NewsAPI)
        ensures
            api@ == (NewsAPIView { country: country, ..old(self)@ }),
            *final(self) == *final(api),
    {
        self.country = country;
        self
    }

    /// The address of the request: `build_url` on the fixed base address.
    pub fn create_url(&self) -> (r: Result<String, NewsApiError>)
        ensures
            match built_url(BASE_URL@, self@.endpoint, self@.country) {
                Some(address) => r is Ok && r->Ok_0@ == address,
                None => r == Err::<String, NewsApiError>(NewsApiError::UrlParseingFailed),
            },
    {
        build_url(BASE_URL, self.endpoint, self.country)
    }

    /// The request to send: the address of `create_url`, and the key,
    /// unchanged, for the header `Authorization`.
    pub fn request(&self) -> (r: Result<Request, NewsApiError>)
        ensures
            match built_url(BASE_URL@, self@.endpoint, self@.country) {
                Some(address) => r is Ok && r->Ok_0.url@ == address && r->Ok_0.authorization@
                    == self@.api_key,
                None => r == Err::<Request, NewsApiError>(NewsApiError::UrlParseingFailed),
            },
    {
        match self.create_url() {
            Ok(url) => Ok(Request { url, authorization: self.api_key.clone() }),
            Err(_) => Err(NewsApiError::UrlParseingFailed),
        }
    }

    /// The result of one fetch, given what came of sending `request`.
    /// Where no address can be built the fetch fails with
    /// `UrlParseingFailed` before anything is sent; else the reply decides,
    /// as `judged` says.
    pub fn fetch(&self, reply: Reply) -> (r: Result<NewsApiResponse, NewsApiError>)
        ensures
            match fetched(built_url(BASE_URL@, self@.endpoint, self@.country) is Some, reply) {
                Ok(envelope) => r is Ok && r->Ok_0@ == envelope,
                Err(e) => r == Err::<NewsApiResponse, NewsApiError>(e),
            },
    {
        match self.create_url() {
            Ok(_) => judge(reply),
            Err(_) => Err(NewsApiError::UrlParseingFailed),
        }
    }
}

/// The result of a fetch: `UrlParseingFailed` where there is no address to
/// ask, else what the reply stands for.
pub open spec fn fetched(has_address: bool, reply: Reply) -> Result<
    NewsApiResponseView,
    NewsApiError,
> {
    if has_address {
        judged(reply)
    } else {
        Err(NewsApiError::UrlParseingFailed)
    }
}

/// Judges an envelope by its status.
pub fn settle(response: NewsApiResponse) -> (r: Result<NewsApiResponse, NewsApiError>)
    ensures
        match settled(response@) {
            Ok(_) => r == Ok::<NewsApiResponse, NewsApiError>(response),
            Err(e) => r == Err::<NewsApiResponse, NewsApiError>(e),
        },
{
    if response.is_ok() {
        Ok(response)
    } else {
        Err(crate::error::map_parsing_err(response.take_code()))
    }
}

/// Turns what came of a request into articles or an error.
pub fn judge(reply: Reply) -> (r: Result<NewsApiResponse, NewsApiError>)
    ensures
        match judged(reply) {
            Ok(envelope) => r is Ok && r->Ok_0@ == envelope,
            Err(e) => r == Err::<NewsApiResponse, NewsApiError>(e),
        },
{
    match reply {
        Reply::TransportFailed => Err(NewsApiError::RequestFailed),
        Reply::AsyncTransportFailed => Err(NewsApiError::AsyncRequestFailed),
        Reply::BodyUnreadable => Err(NewsApiError::ResponseToStringFailed),
        Reply::Body(text) => match decode(text.as_str()) {
            Ok(response) => settle(response),
            Err(_) => Err(NewsApiError::ArticleParseFailed),
        },
    }
}

} // verus!
