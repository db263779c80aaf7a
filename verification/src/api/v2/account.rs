//! Definitions for the retrieval of account information.

use vstd::prelude::*;

pub use crate::api::v1::account::Id;
use crate::time_util::Timestamp;
use crate::endpoint::evaluate_rate_limited;
use crate::endpoint::rate_limited_errors;
use crate::endpoint::evaluation;
use crate::endpoint::ApiMessage;
use crate::endpoint::EndpointError;
use crate::endpoint::ErrorKind;
use crate::endpoint::Method;

use num_decimal::Num;

verus! {

/// A response as returned by the /v2/account endpoint.
#[derive(Clone, Debug, PartialEq)]
pub struct Account {
    /// Account ID.
    pub id: Id,
    /// The account's status.
    pub status: String,
    /// The currency the account uses.
    pub currency: String,
    /// Cash balance.
    pub cash: Num,
    /// Whether or not the account has been flagged as a pattern day
    /// trader.
    pub day_trader: bool,
    /// Whether or not the user has suspended trading operations.
    pub trading_suspended: bool,
    /// If true, the account is not allowed to place orders.
    pub trading_blocked: bool,
    /// If true, the account is not allowed to request money transfers.
    pub transfers_blocked: bool,
    /// If true, the account activity by user is prohibited.
    pub account_blocked: bool,
    /// Timestamp this account was created at.
    pub created_at: Timestamp,
    /// Flag to denote whether or not the account is permitted to short.
    pub shorting_enabled: bool,
    /// Real-time mark-to-market value of all long positions held in the
    /// account.
    pub market_value_long: Num,
    /// Real-time mark-to-market value of all short positions held in the
    /// account.
    pub market_value_short: Num,
    /// The sum of `cash`, `market_value_long`, and `market_value_short`.
    pub equity: Num,
    /// Equity as of previous trading day at 16:00:00 ET.
    pub last_equity: Num,
    /// Buying power multiplier that represents account margin
    /// classification (1, 2, or 4).
    pub multiplier: Num,
    /// The currently available buying power, calculated based on the
    /// multiplier.
    pub buying_power: Num,
    /// Initial margin requirement (this value is continuously updated).
    pub initial_margin: Num,
    /// Maintenance margin requirement (this value is continuously
    /// updated).
    pub maintenance_margin: Num,
    /// The current number of day trades that have been made in the last
    /// five trading days (including today).
    pub daytrade_count: u8,
}

/// The representation of a GET request to the /v2/account endpoint.
#[derive(Clone, Copy, Debug)]
pub struct Get;

impl Get {
    /// The HTTP method of the request.
    pub fn method() -> (r: Method)
        ensures
            r == Method::Get,
    {
        Method::Get
    }

    /// The path of the request.
    pub fn path(_input: &()) -> (r: String)
        ensures
            r@ == "/v2/account"@,
    {
        String::from_str("/v2/account")
    }

    /// Evaluate the HTTP status of a response: 200 carries the account information.
    pub fn evaluate(status: u16, message: ApiMessage) -> (r: Result<(), EndpointError>)
        ensures
            r == evaluation(seq![200u16], rate_limited_errors(seq![]), status, message),
    {
        let ok = [200u16];
        let errs: [(u16, ErrorKind); 0] = [];
        proof {
            assert(ok@ =~= seq![200u16]);
            assert(errs@ =~= Seq::<(u16, ErrorKind)>::empty());
        }
        evaluate_rate_limited(&ok, &errs, status, message)
    }
}

} // verus!
