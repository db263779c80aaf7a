//! Definitions for the account configuration.

use vstd::prelude::*;

use crate::endpoint::evaluate_standard;
use crate::endpoint::standard_errors;
use crate::endpoint::evaluation;
use crate::endpoint::ApiMessage;
use crate::endpoint::EndpointError;
use crate::endpoint::ErrorKind;
use crate::endpoint::Method;

verus! {

/// An enum representing the possible trade confirmation settings.
#[derive(Clone, Copy, Debug, PartialEq, Eq, Structural)]
pub enum TradeConfirmation {
    /// Send an e-mail to confirm trades.
    Email,
    /// Provide no confirmation for trades.
    NoConfirmation,
}

/// A response as returned by the /v2/account/configurations endpoint.
#[derive(Clone, Copy, Debug, PartialEq, Eq, Structural)]
pub struct Configuration {
    /// Whether and how trades are confirmed.
    pub trade_confirmation: TradeConfirmation,
    /// If enabled, new orders are blocked.
    pub trading_suspended: bool,
    /// If enabled, the account can only submit buy orders.
    pub no_shorting: bool,
}

/// The representation of a GET request to the /v2/account/configurations
/// endpoint.
#[derive(Clone, Copy, Debug)]
pub struct Get;

impl Get {
    /// The HTTP method of the request.
    pub fn method() -> (r: Method)
        ensures
            r == Method::Get,
    {
        Method::Get
    }

    /// The path of the request.
    pub fn path(_input: &()) -> (r: String)
        ensures
            r@ == "/v2/account/configurations"@,
    {
        String::from_str("/v2/account/configurations")
    }

    /// Evaluate the HTTP status of a response: 200 carries the configuration.
    pub fn evaluate(status: u16, message: ApiMessage) -> (r: Result<(), EndpointError>)
        ensures
            r == evaluation(seq![200u16], standard_errors(seq![]), status, message),
    {
        let ok = [200u16];
        let errs: [(u16, ErrorKind); 0] = [];
        proof {
            assert(ok@ =~= seq![200u16]);
            assert(errs@ =~= Seq::<(u16, ErrorKind)>::empty());
        }
        evaluate_standard(&ok, &errs, status, message)
    }
}

/// The representation of a PATCH request to the
/// /v2/account/configurations endpoint, with the new configuration as
/// the body.
#[derive(Clone, Copy, Debug)]
pub struct Change;

impl Change {
    /// The HTTP method of the request.
    pub fn method() -> (r: Method)
        ensures
            r == Method::Patch,
    {
        Method::Patch
    }

    /// The path of the request.
    pub fn path(_input: &Configuration) -> (r: String)
        ensures
            r@ == "/v2/account/configurations"@,
    {
        String::from_str("/v2/account/configurations")
    }

    /// Evaluate the HTTP status of a response: 200 carries the updated configuration; one of the new
    /// values is invalid on 400.
    pub fn evaluate(status: u16, message: ApiMessage) -> (r: Result<(), EndpointError>)
        ensures
            r == evaluation(seq![200u16], standard_errors(seq![(400u16, ErrorKind::InvalidValues)]), status, message),
    {
        let ok = [200u16];
        let errs = [(400u16, ErrorKind::InvalidValues)];
        proof {
            assert(ok@ =~= seq![200u16]);
            assert(errs@ =~= seq![(400u16, ErrorKind::InvalidValues)]);
        }
        evaluate_standard(&ok, &errs, status, message)
    }
}

} // verus!
