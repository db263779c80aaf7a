//! Definitions for the market clock.

use vstd::prelude::*;

use crate::time_util::Timestamp;
use crate::endpoint::evaluate_standard;
use crate::endpoint::standard_errors;
use crate::endpoint::evaluation;
use crate::endpoint::ApiMessage;
use crate::endpoint::EndpointError;
use crate::endpoint::ErrorKind;
use crate::endpoint::Method;

verus! {

/// The market clock.
#[derive(Clone, Copy, Debug, PartialEq, Eq, Structural)]
pub struct Clock {
    /// Whether or not the market is open.
    pub open: bool,
    /// The current time.
    pub current: Timestamp,
    /// The next market opening time stamp.
    pub next_open: Timestamp,
    /// The next market closing time stamp.
    pub next_close: Timestamp,
}

/// The representation of a GET request to the /v2/clock endpoint.
#[derive(Clone, Copy, Debug)]
pub struct Get;

impl Get {
    /// The HTTP method of the request.
    pub fn method() -> (r: Method)
        ensures
            r == Method::Get,
    {
        Method::Get
    }

    /// The path of the request.
    pub fn path(_input: &()) -> (r: String)
        ensures
            r@ == "/v2/clock"@,
    {
        String::from_str("/v2/clock")
    }

    /// Evaluate the HTTP status of a response: 200 carries the clock.
    pub fn evaluate(status: u16, message: ApiMessage) -> (r: Result<(), EndpointError>)
        ensures
            r == evaluation(seq![200u16], standard_errors(seq![]), status, message),
    {
        let ok = [200u16];
        let errs: [(u16, ErrorKind); 0] = [];
        proof {
            assert(ok@ =~= seq![200u16]);
            assert(errs@ =~= Seq::<(u16, ErrorKind)>::empty());
        }
        evaluate_standard(&ok, &errs, status, message)
    }
}

} // verus!
