//! Definitions for the retrieval and liquidation of positions.

use vstd::prelude::*;

use core::ops::Not;

use crate::api::v2::asset;
use crate::text::append_str;
use crate::endpoint::evaluate_standard;
use crate::endpoint::standard_errors;
use crate::endpoint::evaluation;
use crate::endpoint::ApiMessage;
use crate::endpoint::EndpointError;
use crate::endpoint::ErrorKind;
use crate::endpoint::Method;

use num_decimal::Num;

verus! {

/// The side of a position.
#[derive(Clone, Copy, Debug, PartialEq, Eq, Structural)]
pub enum Side {
    /// A long position of an asset.
    Long,
    /// A short position of an asset.
    Short,
}

/// The opposite side.
pub open spec fn opposite(side: Side) -> Side {
    match side {
        Side::Long => Side::Short,
        Side::Short => Side::Long,
    }
}

impl Not for Side {
    type Output = Self;

    fn not(self) -> (r: Self::Output)
        ensures
            r == opposite(self),
    {
        match self {
            Side::Long => Side::Short,
            Side::Short => Side::Long,
        }
    }
}

impl vstd::std_specs::ops::NotSpecImpl for Side {
    open spec fn obeys_not_spec() -> bool {
        true
    }

    open spec fn not_req(self) -> bool {
        true
    }

    open spec fn not_spec(self) -> Self {
        opposite(self)
    }
}

/// Negating a side twice gives it back, and no side is its own
/// opposite.
pub proof fn lemma_side_negation(side: Side)
    ensures
        opposite(opposite(side)) == side,
        opposite(side) != side,
{
}

/// A single position as returned by the /v2/positions endpoint on a GET
/// request.
#[derive(Clone, Debug, PartialEq)]
pub struct Position {
    /// The ID of the asset represented by the position.
    pub asset_id: asset::Id,
    /// The symbol of the asset being traded.
    pub symbol: String,
    /// The exchange the position is held at.
    pub exchange: asset::Exchange,
    /// The position's asset class.
    pub asset_class: asset::Class,
    /// The average entry price of the position.
    pub average_entry_price: Num,
    /// The number of shares.
    pub quantity: Num,
    /// The side the position is on.
    pub side: Side,
    /// The total dollar amount of the position.
    pub market_value: Option<Num>,
    /// The total cost basis in dollar.
    pub cost_basis: Num,
    /// The total unrealized profit/loss in dollar.
    pub unrealized_gain_total: Option<Num>,
    /// The total unrealized profit/loss percent (as a factor of 1).
    pub unrealized_gain_total_percent: Option<Num>,
    /// The unrealized profit/loss in dollar for the day.
    pub unrealized_gain_today: Option<Num>,
    /// The unrealized profit/loss percent for the day (as a factor of 1).
    pub unrealized_gain_today_percent: Option<Num>,
    /// The current asset price per share.
    pub current_price: Option<Num>,
    /// The last day's asset price per share.
    pub last_day_price: Option<Num>,
    /// The percent change from last day price (as a factor of 1).
    pub change_today: Option<Num>,
}

/// The representation of a GET request to the /v2/positions/{symbol}
/// endpoint.
#[derive(Clone, Copy, Debug)]
pub struct Get;

impl Get {
    /// The HTTP method of the request.
    pub fn method() -> (r: Method)
        ensures
            r == Method::Get,
    {
        Method::Get
    }

    /// The path of the request.
    pub fn path(input: &asset::Symbol) -> (r: String)
        ensures
            r@ == "/v2/positions/"@ + asset::symbol_text(input@),
    {
        let mut s = String::new();
        append_str(&mut s, "/v2/positions/");
        let sym = input.to_string();
        append_str(&mut s, sym.as_str());
        s
    }

    /// Evaluate the HTTP status of a response: 200 carries the position; no position exists for the symbol on 404.
    pub fn evaluate(status: u16, message: ApiMessage) -> (r: Result<(), EndpointError>)
        ensures
            r == evaluation(seq![200u16], standard_errors(seq![(404u16, ErrorKind::NotFound)]), status, message),
    {
        let ok = [200u16];
        let errs = [(404u16, ErrorKind::NotFound)];
        proof {
            assert(ok@ =~= seq![200u16]);
            assert(errs@ =~= seq![(404u16, ErrorKind::NotFound)]);
        }
        evaluate_standard(&ok, &errs, status, message)
    }
}

/// The representation of a DELETE request to the /v2/positions/{symbol}
/// endpoint, which liquidates the position.
#[derive(Clone, Copy, Debug)]
pub struct Delete;

impl Delete {
    /// The HTTP method of the request.
    pub fn method() -> (r: Method)
        ensures
            r == Method::Delete,
    {
        Method::Delete
    }

    /// The path of the request.
    pub fn path(input: &asset::Symbol) -> (r: String)
        ensures
            r@ == "/v2/positions/"@ + asset::symbol_text(input@),
    {
        let mut s = String::new();
        append_str(&mut s, "/v2/positions/");
        let sym = input.to_string();
        append_str(&mut s, sym.as_str());
        s
    }

    /// Evaluate the HTTP status of a response: 200 carries the order that liquidates the position; no position
    /// exists for the symbol on 404.
    pub fn evaluate(status: u16, message: ApiMessage) -> (r: Result<(), EndpointError>)
        ensures
            r == evaluation(seq![200u16], standard_errors(seq![(404u16, ErrorKind::NotFound)]), status, message),
    {
        let ok = [200u16];
        let errs = [(404u16, ErrorKind::NotFound)];
        proof {
            assert(ok@ =~= seq![200u16]);
            assert(errs@ =~= seq![(404u16, ErrorKind::NotFound)]);
        }
        evaluate_standard(&ok, &errs, status, message)
    }
}

} // verus!
