//! Definitions for positions (first API version).

use vstd::prelude::*;

use crate::api::v1::asset;
use crate::text::append_str;
use crate::endpoint::evaluate_rate_limited;
use crate::endpoint::rate_limited_errors;
use crate::endpoint::evaluation;
use crate::endpoint::ApiMessage;
use crate::endpoint::EndpointError;
use crate::endpoint::ErrorKind;
use crate::endpoint::Method;

use num_decimal::Num;

verus! {

/// A GET request to be made to the /v1/positions/{symbol} endpoint.
#[derive(Clone, Debug, PartialEq, Eq)]
pub struct PositionReq {
    /// The symbol of the asset in question.
    pub symbol: String,
}

/// The side of a position.
#[derive(Clone, Copy, Debug, PartialEq, Eq, Structural)]
pub enum Side {
    /// A long position of an asset.
    Long,
}

/// A single position as returned by the /v1/positions endpoint on a GET
/// request.
#[derive(Clone, Debug, PartialEq)]
pub struct Position {
    /// The ID of the asset represented by the position.
    pub asset_id: asset::Id,
    /// The symbol of the asset being traded.
    pub symbol: String,
    /// The exchange the position is held at.
    pub exchange: asset::Exchange,
    /// The position's asset class.
    pub asset_class: asset::Class,
    /// The average entry price of the position.
    pub average_entry_price: Num,
    /// The number of shares.
    pub quantity: Num,
    /// The side the position is on.
    pub side: Side,
    /// The total dollar amount of the position.
    pub market_value: Num,
    /// The total cost basis in dollar.
    pub cost_basis: Num,
    /// The total unrealized profit/loss in dollar.
    pub unrealized_gain_total: Num,
    /// The total unrealized profit/loss percent (as a factor of 1).
    pub unrealized_gain_total_percent: Num,
    /// The unrealized profit/loss in dollar for the day.
    pub unrealized_gain_today: Num,
    /// The unrealized profit/loss percent for the day (as a factor of 1).
    pub unrealized_gain_today_percent: Num,
    /// The current asset price per share.
    pub current_price: Num,
    /// The last day's asset price per share.
    pub last_day_price: Num,
    /// The percent change from last day price (as a factor of 1).
    pub change_today: Num,
}

/// The representation of a GET request to the /v1/positions/{symbol}
/// endpoint.
#[derive(Clone, Copy, Debug)]
pub struct Get;

impl Get {
    /// The HTTP method of the request.
    pub fn method() -> (r: Method)
        ensures
            r == Method::Get,
    {
        Method::Get
    }

    /// The path of the request.
    pub fn path(input: &PositionReq) -> (r: String)
        ensures
            r@ == "/v1/positions/"@ + input.symbol@,
    {
        let mut s = String::new();
        append_str(&mut s, "/v1/positions/");
        append_str(&mut s, input.symbol.as_str());
        s
    }

    /// Evaluate the HTTP status of a response: 200 carries the position; no position exists for the
    /// symbol on 404.
    pub fn evaluate(status: u16, message: ApiMessage) -> (r: Result<(), EndpointError>)
        ensures
            r == evaluation(seq![200u16], rate_limited_errors(seq![(404u16, ErrorKind::NotFound)]), status, message),
    {
        let ok = [200u16];
        let errs = [(404u16, ErrorKind::NotFound)];
        proof {
            assert(ok@ =~= seq![200u16]);
            assert(errs@ =~= seq![(404u16, ErrorKind::NotFound)]);
        }
        evaluate_rate_limited(&ok, &errs, status, message)
    }
}

} // verus!
