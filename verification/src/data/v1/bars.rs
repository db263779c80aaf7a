//! Definitions for the retrieval of aggregate bars (first Data API
//! version).

use vstd::prelude::*;

use crate::text::append_str;
use crate::time_util::Timestamp;
use crate::api_info::DATA_BASE_URL;
use crate::endpoint::evaluate_standard;
use crate::endpoint::standard_errors;
use crate::endpoint::evaluation;
use crate::endpoint::ApiMessage;
use crate::endpoint::EndpointError;
use crate::endpoint::ErrorKind;
use crate::endpoint::Method;

use num_decimal::Num;

verus! {

/// An enumeration of the time frames of bars.
#[derive(Clone, Copy, Debug, PartialEq, Eq, Structural)]
pub enum TimeFrame {
    /// A time frame of one minute.
    OneMinute,
    /// A time frame of five minutes.
    FiveMinutes,
    /// A time frame of 15 minutes.
    FifteenMinutes,
    /// A time frame of one day.
    OneDay,
}

/// The textual form of a time frame.
pub open spec fn time_frame_text(t: TimeFrame) -> Seq<char> {
    match t {
        TimeFrame::OneMinute => "1Min"@,
        TimeFrame::FiveMinutes => "5Min"@,
        TimeFrame::FifteenMinutes => "15Min"@,
        TimeFrame::OneDay => "1D"@,
    }
}

/// Each time frame is written as the API names it (`1Min`, `5Min`,
/// `15Min`, `1D`), and no two time frames are written alike.
pub proof fn lemma_time_frame_text(a: TimeFrame, b: TimeFrame)
    ensures
        time_frame_text(TimeFrame::OneMinute) == "1Min"@,
        time_frame_text(TimeFrame::FiveMinutes) == "5Min"@,
        time_frame_text(TimeFrame::FifteenMinutes) == "15Min"@,
        time_frame_text(TimeFrame::OneDay) == "1D"@,
        time_frame_text(a) == time_frame_text(b) ==> a == b,
{
    reveal_strlit("1Min");
    reveal_strlit("5Min");
    reveal_strlit("15Min");
    reveal_strlit("1D");
    if a != b {
        assert(time_frame_text(a) != time_frame_text(b)) by {
            let x = time_frame_text(a);
            let y = time_frame_text(b);
            if x.len() == y.len() {
                if x.len() == 4 {
                    assert(x[0] != y[0]);
                } else if x.len() == 5 {
                } else {
                }
            }
        }
    }
}

impl TimeFrame {
    /// The textual form of the time frame.
    pub fn as_ref(&self) -> (r: &'static str)
        ensures
            r@ == time_frame_text(*self),
            r@ == (match *self {
                TimeFrame::OneMinute => "1Min"@,
                TimeFrame::FiveMinutes => "5Min"@,
                TimeFrame::FifteenMinutes => "15Min"@,
                TimeFrame::OneDay => "1D"@,
            }),
    {
        match *self {
            TimeFrame::OneMinute => "1Min",
            TimeFrame::FiveMinutes => "5Min",
            TimeFrame::FifteenMinutes => "15Min",
            TimeFrame::OneDay => "1D",
        }
    }
}

/// A GET request to be issued to the /v1/bars/{timeframe} endpoint.
#[derive(Clone, Debug, PartialEq, Eq)]
pub struct BarReq {
    /// The symbol to retrieve bars for.
    pub symbol: String,
    /// The maximum number of bars to be returned.
    pub limit: usize,
    /// Filter bars equal to or before this time.
    pub end: Option<Timestamp>,
}

/// A market data bar as returned by the /v1/bars/{timeframe} endpoint.
#[derive(Clone, Debug, PartialEq)]
pub struct Bar {
    /// The beginning time of this bar.
    pub time: Timestamp,
    /// The open price.
    pub open: Num,
    /// The close price.
    pub close: Num,
    /// The highest price.
    pub high: Num,
    /// The lowest price.
    pub low: Num,
    /// The trading volume.
    pub volume: usize,
}

/// The representation of a GET request to the /v1/bars/{timeframe}
/// endpoint, with the rest of the request in the query.
#[derive(Clone, Copy, Debug)]
pub struct Get;

impl Get {
    /// The base URL of the request: that of the Data API.
    pub fn base_url() -> (r: Option<&'static str>)
        ensures
            r matches Some(u) && u@ == DATA_BASE_URL@,
    {
        Some(DATA_BASE_URL)
    }

    /// The HTTP method of the request.
    pub fn method() -> (r: Method)
        ensures
            r == Method::Get,
    {
        Method::Get
    }

    /// The path of the request.
    pub fn path(input: &(TimeFrame, BarReq)) -> (r: String)
        ensures
            r@ == "/v1/bars/"@ + time_frame_text(input.0),
    {
        let mut s = String::new();
        append_str(&mut s, "/v1/bars/");
        append_str(&mut s, input.0.as_ref());
        s
    }

    /// Evaluate the HTTP status of a response: 200 carries the bars per symbol; an argument was invalid
    /// on 422.
    pub fn evaluate(status: u16, message: ApiMessage) -> (r: Result<(), EndpointError>)
        ensures
            r == evaluation(seq![200u16], standard_errors(seq![(422u16, ErrorKind::InvalidArgument)]), status, message),
    {
        let ok = [200u16];
        let errs = [(422u16, ErrorKind::InvalidArgument)];
        proof {
            assert(ok@ =~= seq![200u16]);
            assert(errs@ =~= seq![(422u16, ErrorKind::InvalidArgument)]);
        }
        evaluate_standard(&ok, &errs, status, message)
    }
}

} // verus!
