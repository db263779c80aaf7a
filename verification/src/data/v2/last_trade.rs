//! Definitions for the retrieval of the latest trades of symbols.

use vstd::prelude::*;

use crate::data::v2::feed::Feed;
use crate::text::join;
use crate::text::join_with;
use crate::text::texts;
use crate::time_util::Timestamp;
use crate::api_info::DATA_BASE_URL;
use crate::endpoint::evaluate_standard;
use crate::endpoint::standard_errors;
use crate::endpoint::evaluation;
use crate::endpoint::ApiMessage;
use crate::endpoint::EndpointError;
use crate::endpoint::ErrorKind;
use crate::endpoint::Method;

use num_decimal::Num;

verus! {

/// A GET request to be made to the /v2/stocks/trades/latest endpoint.
#[derive(Clone, Debug, PartialEq, Eq)]
pub struct LastTradeRequest {
    /// Symbols to retrieve the last trade for, comma separated.
    pub symbols: String,
    /// The data feed to use.
    pub feed: Option<Feed>,
}

impl LastTradeRequest {
    /// Create a new `LastTradeRequest` for the given symbols.
    pub fn new(symbols: Vec<String>) -> (r: Self)
        ensures
            r.symbols@ == join_with(texts(symbols@), ","@),
            r.feed is None,
    {
        LastTradeRequest { symbols: join(symbols.as_slice(), ","), feed: None }
    }

    /// Set the data feed to use.
    pub fn with_feed(self, feed: Feed) -> (r: Self)
        ensures
            r == (LastTradeRequest { feed: Some(feed), ..self }),
    {
        let mut r = self;
        r.feed = Some(feed);
        r
    }
}

/// A trade as returned by the /v2/stocks/trades/latest endpoint.
#[derive(Clone, Debug, PartialEq)]
pub struct Trade {
    /// The time stamp of this trade.
    pub time: Timestamp,
    /// Trade price.
    pub price: Num,
    /// Trade size.
    pub size: u64,
    /// Symbol.
    pub symbol: String,
}

/// A trade as the /v2/stocks/trades/latest endpoint reports it, keyed by
/// its symbol.
#[derive(Clone, Debug, PartialEq)]
pub struct TradeDataPoint {
    /// The time stamp of the trade.
    pub t: Timestamp,
    /// The trade price.
    pub p: Num,
    /// The trade size.
    pub s: u64,
}

impl Trade {
    /// The trade of `symbol` that a data point describes.
    pub fn from(symbol: &str, point: TradeDataPoint) -> (r: Self)
        ensures
            r.time == point.t,
            r.price == point.p,
            r.size == point.s,
            r.symbol@ == symbol@,
    {
        Trade { time: point.t, price: point.p, size: point.s, symbol: String::from_str(symbol) }
    }
}

/// The representation of a GET request to the /v2/stocks/trades/latest
/// endpoint, with the request in the query.
#[derive(Clone, Copy, Debug)]
pub struct Get;

impl Get {
    /// The base URL of the request: that of the Data API.
    pub fn base_url() -> (r: Option<&'static str>)
        ensures
            r matches Some(u) && u@ == DATA_BASE_URL@,
    {
        Some(DATA_BASE_URL)
    }

    /// The HTTP method of the request.
    pub fn method() -> (r: Method)
        ensures
            r == Method::Get,
    {
        Method::Get
    }

    /// The path of the request.
    pub fn path(_input: &LastTradeRequest) -> (r: String)
        ensures
            r@ == "/v2/stocks/trades/latest"@,
    {
        String::from_str("/v2/stocks/trades/latest")
    }

    /// Evaluate the HTTP status of a response: 200 carries the trades; the symbol was invalid or not
    /// found, or the feed is not supported, on 422.
    pub fn evaluate(status: u16, message: ApiMessage) -> (r: Result<(), EndpointError>)
        ensures
            r == evaluation(seq![200u16], standard_errors(seq![(422u16, ErrorKind::InvalidInput)]), status, message),
    {
        let ok = [200u16];
        let errs = [(422u16, ErrorKind::InvalidInput)];
        proof {
            assert(ok@ =~= seq![200u16]);
            assert(errs@ =~= seq![(422u16, ErrorKind::InvalidInput)]);
        }
        evaluate_standard(&ok, &errs, status, message)
    }
}

} // verus!
