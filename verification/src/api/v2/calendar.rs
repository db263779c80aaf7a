//! Definitions for the market calendar.

use vstd::prelude::*;

use chrono::Timelike;

use crate::endpoint::evaluate_standard;
use crate::endpoint::standard_errors;
use crate::endpoint::evaluation;
use crate::endpoint::ApiMessage;
use crate::endpoint::EndpointError;
use crate::endpoint::ErrorKind;
use crate::endpoint::Method;

verus! {

/// A calendar date without a time zone.
#[derive(Clone, Copy, Debug, PartialEq, Eq, Structural)]
pub struct Date {
    /// The year.
    pub year: i32,
    /// The month, from 1 to 12.
    pub month: u32,
    /// The day of the month, from 1.
    pub day: u32,
}

/// A time of the day, to the minute, without a time zone.
#[derive(Clone, Copy, Debug, PartialEq, Eq, Structural)]
pub struct Time {
    /// The hour, from 0 to 23.
    pub hour: u32,
    /// The minute, from 0 to 59.
    pub minute: u32,
}

/// What `chrono::NaiveTime::parse_from_str` makes of a string in the
/// format `%H:%M`: the hour, minute, and second.
pub uninterp spec fn spec_parse_hour_minute(s: Seq<char>) -> Option<(u32, u32, u32)>;

/// Parse a time of the day in the format `%H:%M` with
/// `chrono::NaiveTime::parse_from_str`, giving hour, minute, and
/// second.
#[verifier::external_body]
fn parse_hour_minute(s: &str) -> (r: Option<(u32, u32, u32)>)
    ensures
        r == spec_parse_hour_minute(s@),
{
    chrono::NaiveTime::parse_from_str(s, "%H:%M").ok().map(|t| (t.hour(), t.minute(), t.second()))
}

/// The time of the day in the format `%H:%M` that a string holds: the
/// opening and closing times of the calendar are given so.
pub fn parse_time(s: &str) -> (r: Option<Time>)
    ensures
        match spec_parse_hour_minute(s@) {
            Some((h, m, _)) => r == Some(Time { hour: h, minute: m }),
            None => r is None,
        },
{
    match parse_hour_minute(s) {
        Some((h, m, _)) => Some(Time { hour: h, minute: m }),
        None => None,
    }
}

/// The market's opening and closing times on a given date.
#[derive(Clone, Copy, Debug, PartialEq, Eq, Structural)]
pub struct OpenClose {
    /// The date to which the below open and close times apply.
    pub date: Date,
    /// The time the market opens at.
    pub open: Time,
    /// The time the market closes at.
    pub close: Time,
}

/// A GET request to be made to the /v2/calendar endpoint.
#[derive(Clone, Copy, Debug, PartialEq, Eq, Structural)]
pub struct CalendarReq {
    /// The (inclusive) start date of the range for which to retrieve
    /// calendar data.
    pub start: Date,
    /// The (exclusive) end date of the range for which to retrieve
    /// calendar data.
    pub end: Date,
}

impl CalendarReq {
    /// The request for the dates of a range: its start, inclusive, and its
    /// end, exclusive.
    pub fn from(range: core::ops::Range<Date>) -> (r: Self)
        ensures
            r.start == range.start,
            r.end == range.end,
    {
        CalendarReq { start: range.start, end: range.end }
    }
}

/// The representation of a GET request to the /v2/calendar endpoint,
/// with the dates in the query.
#[derive(Clone, Copy, Debug)]
pub struct Get;

impl Get {
    /// The HTTP method of the request.
    pub fn method() -> (r: Method)
        ensures
            r == Method::Get,
    {
        Method::Get
    }

    /// The path of the request.
    pub fn path(_input: &CalendarReq) -> (r: String)
        ensures
            r@ == "/v2/calendar"@,
    {
        String::from_str("/v2/calendar")
    }

    /// Evaluate the HTTP status of a response: 200 carries the opening and closing times.
    pub fn evaluate(status: u16, message: ApiMessage) -> (r: Result<(), EndpointError>)
        ensures
            r == evaluation(seq![200u16], standard_errors(seq![]), status, message),
    {
        let ok = [200u16];
        let errs: [(u16, ErrorKind); 0] = [];
        proof {
            assert(ok@ =~= seq![200u16]);
            assert(errs@ =~= Seq::<(u16, ErrorKind)>::empty());
        }
        evaluate_standard(&ok, &errs, status, message)
    }
}

} // verus!
