//! Definitions for the retrieval of the latest quote of a symbol.

use vstd::prelude::*;

use crate::data::v2::feed::Feed;
use crate::text::append_str;
use crate::time_util::Timestamp;
use crate::api_info::DATA_BASE_URL;
use crate::endpoint::evaluate_standard;
use crate::endpoint::standard_errors;
use crate::endpoint::evaluation;
use crate::endpoint::ApiMessage;
use crate::endpoint::EndpointError;
use crate::endpoint::ErrorKind;
use crate::endpoint::Method;

use num_decimal::Num;

verus! {

/// A GET request to be made to the /v2/stocks/{symbol}/quotes/latest
/// endpoint.
#[derive(Clone, Debug, PartialEq, Eq)]
pub struct LastQuoteReq {
    /// The symbol to retrieve the last quote for.
    pub symbol: String,
    /// The data feed to use.
    pub feed: Option<Feed>,
}

/// A helper for initializing `LastQuoteReq` objects.
#[derive(Clone, Debug, PartialEq, Eq)]
pub struct LastQuoteReqInit {
    /// See `LastQuoteReq::feed`.
    pub feed: Option<Feed>,
}

impl Default for LastQuoteReqInit {
    fn default() -> (r: Self)
        ensures
            r.feed is None,
    {
        LastQuoteReqInit { feed: None }
    }
}

impl LastQuoteReqInit {
    /// Create a [`LastQuoteReq`] from a `LastQuoteReqInit`.
    pub fn init(self, symbol: String) -> (r: LastQuoteReq)
        ensures
            r == (LastQuoteReq { symbol, feed: self.feed }),
    {
        LastQuoteReq { symbol, feed: self.feed }
    }
}

/// A quote bar as returned by the /v2/stocks/{symbol}/quotes/latest
/// endpoint.
#[derive(Clone, Debug, PartialEq)]
pub struct Quote {
    /// The time stamp of this quote.
    pub time: Timestamp,
    /// The ask price.
    pub ask_price: Num,
    /// The ask size.
    pub ask_size: u64,
    /// The bid price.
    pub bid_price: Num,
    /// The bid size.
    pub bid_size: u64,
}

/// The representation of a GET request to the
/// /v2/stocks/{symbol}/quotes/latest endpoint, with the feed in the
/// query.
#[derive(Clone, Copy, Debug)]
pub struct Get;

impl Get {
    /// The base URL of the request: that of the Data API.
    pub fn base_url() -> (r: Option<&'static str>)
        ensures
            r matches Some(u) && u@ == DATA_BASE_URL@,
    {
        Some(DATA_BASE_URL)
    }

    /// The HTTP method of the request.
    pub fn method() -> (r: Method)
        ensures
            r == Method::Get,
    {
        Method::Get
    }

    /// The path of the request.
    pub fn path(input: &LastQuoteReq) -> (r: String)
        ensures
            r@ == "/v2/stocks/"@ + input.symbol@ + "/quotes/latest"@,
    {
        let mut s = String::new();
        append_str(&mut s, "/v2/stocks/");
        append_str(&mut s, input.symbol.as_str());
        append_str(&mut s, "/quotes/latest");
        s
    }

    /// Evaluate the HTTP status of a response: 200 carries the quote; the symbol was invalid or not
    /// found, or the feed is not supported, on 422.
    pub fn evaluate(status: u16, message: ApiMessage) -> (r: Result<(), EndpointError>)
        ensures
            r == evaluation(seq![200u16], standard_errors(seq![(422u16, ErrorKind::InvalidInput)]), status, message),
    {
        let ok = [200u16];
        let errs = [(422u16, ErrorKind::InvalidInput)];
        proof {
            assert(ok@ =~= seq![200u16]);
            assert(errs@ =~= seq![(422u16, ErrorKind::InvalidInput)]);
        }
        evaluate_standard(&ok, &errs, status, message)
    }
}

} // verus!
