//! Definitions for listing positions (first API version).

use vstd::prelude::*;

use crate::endpoint::evaluate_rate_limited;
use crate::endpoint::rate_limited_errors;
use crate::endpoint::evaluation;
use crate::endpoint::ApiMessage;
use crate::endpoint::EndpointError;
use crate::endpoint::ErrorKind;
use crate::endpoint::Method;

verus! {

/// The representation of a GET request to the /v1/positions endpoint.
#[derive(Clone, Copy, Debug)]
pub struct Get;

impl Get {
    /// The HTTP method of the request.
    pub fn method() -> (r: Method)
        ensures
            r == Method::Get,
    {
        Method::Get
    }

    /// The path of the request.
    pub fn path(_input: &()) -> (r: String)
        ensures
            r@ == "/v1/positions"@,
    {
        String::from_str("/v1/positions")
    }

    /// Evaluate the HTTP status of a response: 200 carries the positions.
    pub fn evaluate(status: u16, message: ApiMessage) -> (r: Result<(), EndpointError>)
        ensures
            r == evaluation(seq![200u16], rate_limited_errors(seq![]), status, message),
    {
        let ok = [200u16];
        let errs: [(u16, ErrorKind); 0] = [];
        proof {
            assert(ok@ =~= seq![200u16]);
            assert(errs@ =~= Seq::<(u16, ErrorKind)>::empty());
        }
        evaluate_rate_limited(&ok, &errs, status, message)
    }
}

} // verus!
