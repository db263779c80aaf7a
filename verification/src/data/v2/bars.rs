//! Definitions for the retrieval of historic aggregate bars.

use vstd::prelude::*;

use crate::data::v2::feed::Feed;
use crate::text::append_str;
use crate::time_util::Timestamp;
use crate::api_info::DATA_BASE_URL;
use crate::endpoint::evaluate_standard;
use crate::endpoint::standard_errors;
use crate::endpoint::evaluation;
use crate::endpoint::ApiMessage;
use crate::endpoint::EndpointError;
use crate::endpoint::ErrorKind;
use crate::endpoint::Method;

use num_decimal::Num;

verus! {

/// An enumeration of the time frames of bars.
#[derive(Clone, Copy, Debug, PartialEq, Eq, Structural)]
pub enum TimeFrame {
    /// A time frame of one minute.
    OneMinute,
    /// A time frame of one hour.
    OneHour,
    /// A time frame of one day.
    OneDay,
}

/// An enumeration of the possible adjustments of bars.
#[derive(Clone, Copy, Debug, PartialEq, Eq, Structural)]
pub enum Adjustment {
    /// No adjustment, i.e., raw data.
    Raw,
    /// Adjustment for stock splits.
    Split,
    /// Adjustment for dividends.
    Dividend,
    /// All available corporate adjustments.
    All,
}

/// A GET request to be issued to the /v2/stocks/{symbol}/bars endpoint.
#[derive(Clone, Debug, PartialEq, Eq)]
pub struct BarsReq {
    /// The symbol for which to retrieve market data.
    pub symbol: String,
    /// The maximum number of bars to be returned for each symbol.
    ///
    /// It can be between 1 and 10000. Defaults to 1000 if the provided
    /// value is None.
    pub limit: Option<usize>,
    /// Filter bars equal to or after this time.
    pub start: Timestamp,
    /// Filter bars equal to or before this time.
    pub end: Timestamp,
    /// The time frame for the bars.
    pub timeframe: TimeFrame,
    /// The adjustment to use (defaults to raw).
    pub adjustment: Option<Adjustment>,
    /// The data feed to use.
    pub feed: Option<Feed>,
    /// If provided we will pass a page token to continue where we left off.
    pub page_token: Option<String>,
}

/// A helper for initializing `BarsReq` objects.
#[derive(Clone, Debug, PartialEq, Eq)]
pub struct BarsReqInit {
    /// See `BarsReq::limit`.
    pub limit: Option<usize>,
    /// See `BarsReq::adjustment`.
    pub adjustment: Option<Adjustment>,
    /// See `BarsReq::feed`.
    pub feed: Option<Feed>,
    /// See `BarsReq::page_token`.
    pub page_token: Option<String>,
}

impl Default for BarsReqInit {
    fn default() -> (r: Self)
        ensures
            r.limit is None,
            r.adjustment is None,
            r.feed is None,
            r.page_token is None,
    {
        BarsReqInit { limit: None, adjustment: None, feed: None, page_token: None }
    }
}

impl BarsReqInit {
    /// Create a [`BarsReq`] from a `BarsReqInit`.
    pub fn init(self, symbol: String, start: Timestamp, end: Timestamp, timeframe: TimeFrame) -> (r: BarsReq)
        ensures
            r == (BarsReq {
                symbol,
                limit: self.limit,
                start,
                end,
                timeframe,
                adjustment: self.adjustment,
                feed: self.feed,
                page_token: self.page_token,
            }),
    {
        BarsReq {
            symbol,
            limit: self.limit,
            start,
            end,
            timeframe,
            adjustment: self.adjustment,
            feed: self.feed,
            page_token: self.page_token,
        }
    }
}

/// A market data bar as returned by the /v2/stocks/{symbol}/bars
/// endpoint.
#[derive(Clone, Debug, PartialEq)]
pub struct Bar {
    /// The beginning time of this bar.
    pub time: Timestamp,
    /// The open price.
    pub open: Num,
    /// The close price.
    pub close: Num,
    /// The highest price.
    pub high: Num,
    /// The lowest price.
    pub low: Num,
    /// The trading volume.
    pub volume: usize,
}

/// A collection of bars as returned by the API, one page of them.
#[derive(Debug, PartialEq)]
pub struct Bars {
    /// The list of returned bars.
    pub bars: Vec<Bar>,
    /// The symbol the bars correspond to.
    pub symbol: String,
    /// The token to provide to a request to get the next page of bars
    /// for this request.
    pub next_page_token: Option<String>,
}

/// The representation of a GET request to the /v2/stocks/{symbol}/bars
/// endpoint, with the rest of the request in the query.
#[derive(Clone, Copy, Debug)]
pub struct Get;

impl Get {
    /// The base URL of the request: that of the Data API.
    pub fn base_url() -> (r: Option<&'static str>)
        ensures
            r matches Some(u) && u@ == DATA_BASE_URL@,
    {
        Some(DATA_BASE_URL)
    }

    /// The HTTP method of the request.
    pub fn method() -> (r: Method)
        ensures
            r == Method::Get,
    {
        Method::Get
    }

    /// The path of the request.
    pub fn path(input: &BarsReq) -> (r: String)
        ensures
            r@ == "/v2/stocks/"@ + input.symbol@ + "/bars"@,
    {
        let mut s = String::new();
        append_str(&mut s, "/v2/stocks/");
        append_str(&mut s, input.symbol.as_str());
        append_str(&mut s, "/bars");
        s
    }

    /// Evaluate the HTTP status of a response: 200 carries the bars; a query parameter was invalid on
    /// 422.
    pub fn evaluate(status: u16, message: ApiMessage) -> (r: Result<(), EndpointError>)
        ensures
            r == evaluation(seq![200u16], standard_errors(seq![(422u16, ErrorKind::InvalidInput)]), status, message),
    {
        let ok = [200u16];
        let errs = [(422u16, ErrorKind::InvalidInput)];
        proof {
            assert(ok@ =~= seq![200u16]);
            assert(errs@ =~= seq![(422u16, ErrorKind::InvalidInput)]);
        }
        evaluate_standard(&ok, &errs, status, message)
    }
}

} // verus!
