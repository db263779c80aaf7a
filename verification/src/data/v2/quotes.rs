//! Definitions for the retrieval of historic quotes.

use vstd::prelude::*;

use crate::data::v2::feed::Feed;
use crate::text::append_str;
use crate::time_util::Timestamp;
use crate::api_info::DATA_BASE_URL;
use crate::endpoint::evaluate_standard;
use crate::endpoint::standard_errors;
use crate::endpoint::evaluation;
use crate::endpoint::ApiMessage;
use crate::endpoint::EndpointError;
use crate::endpoint::ErrorKind;
use crate::endpoint::Method;

verus! {

pub use crate::data::v2::last_quote::Quote;

/// A collection of quotes as returned by the API, one page of them.
#[derive(Debug, PartialEq)]
pub struct Quotes {
    /// The list of returned quotes.
    pub quotes: Vec<Quote>,
    /// The symbol the quotes correspond to.
    pub symbol: String,
    /// The token to provide to a request to get the next page of quotes
    /// for this request.
    pub next_page_token: Option<String>,
}

/// A helper for initializing `QuotesReq` objects.
#[derive(Clone, Debug, PartialEq, Eq)]
pub struct QuotesReqInit {
    /// See `QuotesReq::limit`.
    pub limit: Option<usize>,
    /// See `QuotesReq::feed`.
    pub feed: Option<Feed>,
    /// See `QuotesReq::page_token`.
    pub page_token: Option<String>,
}

impl Default for QuotesReqInit {
    fn default() -> (r: Self)
        ensures
            r.limit is None,
            r.feed is None,
            r.page_token is None,
    {
        QuotesReqInit { limit: None, feed: None, page_token: None }
    }
}

impl QuotesReqInit {
    /// Create a [`QuotesReq`] from a `QuotesReqInit`.
    pub fn init(self, symbol: String, start: Timestamp, end: Timestamp) -> (r: QuotesReq)
        ensures
            r == (QuotesReq {
                symbol,
                start,
                end,
                limit: self.limit,
                feed: self.feed,
                page_token: self.page_token,
            }),
    {
        QuotesReq {
            symbol,
            start,
            end,
            limit: self.limit,
            feed: self.feed,
            page_token: self.page_token,
        }
    }
}

/// A GET request to be issued to the /v2/stocks/{symbol}/quotes
/// endpoint.
#[derive(Clone, Debug, PartialEq, Eq)]
pub struct QuotesReq {
    /// The symbol to retrieve quotes for.
    pub symbol: String,
    /// Filter quotes equal to or after this time.
    pub start: Timestamp,
    /// Filter quotes equal to or before this time.
    pub end: Timestamp,
    /// The maximum number of quotes to be returned (between 1 and
    /// 10000; 1000 if none is given).
    pub limit: Option<usize>,
    /// The data feed to use.
    pub feed: Option<Feed>,
    /// If provided we will pass a page token to continue where we left off.
    pub page_token: Option<String>,
}

/// The representation of a GET request to the /v2/stocks/{symbol}/quotes
/// endpoint, with the rest of the request in the query.
#[derive(Clone, Copy, Debug)]
pub struct Get;

impl Get {
    /// The base URL of the request: that of the Data API.
    pub fn base_url() -> (r: Option<&'static str>)
        ensures
            r matches Some(u) && u@ == DATA_BASE_URL@,
    {
        Some(DATA_BASE_URL)
    }

    /// The HTTP method of the request.
    pub fn method() -> (r: Method)
        ensures
            r == Method::Get,
    {
        Method::Get
    }

    /// The path of the request.
    pub fn path(input: &QuotesReq) -> (r: String)
        ensures
            r@ == "/v2/stocks/"@ + input.symbol@ + "/quotes"@,
    {
        let mut s = String::new();
        append_str(&mut s, "/v2/stocks/");
        append_str(&mut s, input.symbol.as_str());
        append_str(&mut s, "/quotes");
        s
    }

    /// Evaluate the HTTP status of a response: 200 carries the quotes; a query parameter was invalid on
    /// 422.
    pub fn evaluate(status: u16, message: ApiMessage) -> (r: Result<(), EndpointError>)
        ensures
            r == evaluation(seq![200u16], standard_errors(seq![(422u16, ErrorKind::InvalidInput)]), status, message),
    {
        let ok = [200u16];
        let errs = [(422u16, ErrorKind::InvalidInput)];
        proof {
            assert(ok@ =~= seq![200u16]);
            assert(errs@ =~= seq![(422u16, ErrorKind::InvalidInput)]);
        }
        evaluate_standard(&ok, &errs, status, message)
    }
}

} // verus!
