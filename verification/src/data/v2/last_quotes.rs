//! Definitions for the retrieval of the latest quotes of several symbols.

use vstd::prelude::*;

use crate::data::v2::feed::Feed;
use crate::time_util::Timestamp;
use crate::api_info::DATA_BASE_URL;
use crate::endpoint::evaluate_standard;
use crate::endpoint::standard_errors;
use crate::endpoint::evaluation;
use crate::endpoint::ApiMessage;
use crate::endpoint::EndpointError;
use crate::endpoint::ErrorKind;
use crate::endpoint::Method;

use num_decimal::Num;

verus! {

/// A GET request to be made to the /v2/stocks/quotes/latest endpoint.
#[derive(Clone, Debug, PartialEq, Eq)]
pub struct GetReq {
    /// The symbols to retrieve the last quote for.
    pub symbols: Vec<String>,
    /// The data feed to use.
    pub feed: Option<Feed>,
}

/// A helper for initializing `GetReq` objects.
#[derive(Clone, Debug, PartialEq, Eq)]
pub struct GetReqInit {
    /// See `GetReq::feed`.
    pub feed: Option<Feed>,
}

impl Default for GetReqInit {
    fn default() -> (r: Self)
        ensures
            r.feed is None,
    {
        GetReqInit { feed: None }
    }
}

impl GetReqInit {
    /// Create a [`GetReq`] from a `GetReqInit`.
    pub fn init(self, symbols: Vec<String>) -> (r: GetReq)
        ensures
            r.symbols@ == symbols@,
            r.feed == self.feed,
    {
        GetReq { symbols, feed: self.feed }
    }
}

/// A quote as returned by the /v2/stocks/quotes/latest endpoint.
#[derive(Clone, Debug, PartialEq)]
pub struct Quote {
    /// The time stamp of this quote.
    pub time: Timestamp,
    /// The ask price.
    pub ask_price: Num,
    /// The ask size.
    pub ask_size: u64,
    /// The bid price.
    pub bid_price: Num,
    /// The bid size.
    pub bid_size: u64,
}

/// The representation of a GET request to the /v2/stocks/quotes/latest
/// endpoint, with the request in the query.
#[derive(Clone, Copy, Debug)]
pub struct Get;

impl Get {
    /// The base URL of the request: that of the Data API.
    pub fn base_url() -> (r: Option<&'static str>)
        ensures
            r matches Some(u) && u@ == DATA_BASE_URL@,
    {
        Some(DATA_BASE_URL)
    }

    /// The HTTP method of the request.
    pub fn method() -> (r: Method)
        ensures
            r == Method::Get,
    {
        Method::Get
    }

    /// The path of the request.
    pub fn path(_input: &GetReq) -> (r: String)
        ensures
            r@ == "/v2/stocks/quotes/latest"@,
    {
        String::from_str("/v2/stocks/quotes/latest")
    }

    /// Evaluate the HTTP status of a response: 200 carries the quotes; the request was invalid on 400.
    pub fn evaluate(status: u16, message: ApiMessage) -> (r: Result<(), EndpointError>)
        ensures
            r == evaluation(seq![200u16], standard_errors(seq![(400u16, ErrorKind::InvalidInput)]), status, message),
    {
        let ok = [200u16];
        let errs = [(400u16, ErrorKind::InvalidInput)];
        proof {
            assert(ok@ =~= seq![200u16]);
            assert(errs@ =~= seq![(400u16, ErrorKind::InvalidInput)]);
        }
        evaluate_standard(&ok, &errs, status, message)
    }
}

} // verus!
