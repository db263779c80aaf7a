//! Definitions for the retrieval of account information (first API
//! version).

use vstd::prelude::*;

use crate::time_util::Timestamp;
use crate::endpoint::evaluate_rate_limited;
use crate::endpoint::rate_limited_errors;
use crate::endpoint::evaluation;
use crate::endpoint::ApiMessage;
use crate::endpoint::EndpointError;
use crate::endpoint::ErrorKind;
use crate::endpoint::Method;

use num_decimal::Num;

verus! {

/// A type representing an account ID.
#[derive(Clone, Copy, Debug, PartialEq, Eq, Hash, Structural)]
pub struct Id(pub u128);

/// A response as returned by the /v1/account endpoint.
#[derive(Clone, Debug, PartialEq)]
pub struct Account {
    /// Account ID.
    pub id: Id,
    /// The account's status.
    pub status: String,
    /// The currency the account uses.
    pub currency: String,
    /// Tradable buying power.
    pub buying_power: Num,
    /// Cash balance.
    pub cash: Num,
    /// Withdrawable cash amount.
    pub withdrawable_cash: Num,
    /// Total value of cash + holding positions.
    pub portfolio_value: Num,
    /// Whether or not the account has been flagged as a pattern day
    /// trader.
    pub day_trader: bool,
    /// If true, the account is not allowed to place orders.
    pub trading_blocked: bool,
    /// If true, the account is not allowed to request money transfers.
    pub transfers_blocked: bool,
    /// If true, the account activity by user is prohibited.
    pub account_blocked: bool,
    /// Timestamp this account was created at.
    pub created_at: Timestamp,
}

/// The representation of a GET request to the /v1/account endpoint.
#[derive(Clone, Copy, Debug)]
pub struct Get;

impl Get {
    /// The HTTP method of the request.
    pub fn method() -> (r: Method)
        ensures
            r == Method::Get,
    {
        Method::Get
    }

    /// The path of the request.
    pub fn path(_input: &()) -> (r: String)
        ensures
            r@ == "/v1/account"@,
    {
        String::from_str("/v1/account")
    }

    /// Evaluate the HTTP status of a response: 200 carries the account information.
    pub fn evaluate(status: u16, message: ApiMessage) -> (r: Result<(), EndpointError>)
        ensures
            r == evaluation(seq![200u16], rate_limited_errors(seq![]), status, message),
    {
        let ok = [200u16];
        let errs: [(u16, ErrorKind); 0] = [];
        proof {
            assert(ok@ =~= seq![200u16]);
            assert(errs@ =~= Seq::<(u16, ErrorKind)>::empty());
        }
        evaluate_rate_limited(&ok, &errs, status, message)
    }
}

} // verus!
