//! Definitions surrounding assets (first API version).

use vstd::prelude::*;

use crate::text::append_str;
use crate::endpoint::evaluate_rate_limited;
use crate::endpoint::rate_limited_errors;
use crate::endpoint::evaluation;
use crate::endpoint::ApiMessage;
use crate::endpoint::EndpointError;
use crate::endpoint::ErrorKind;
use crate::endpoint::Method;

verus! {

/// An ID uniquely identifying an asset.
#[derive(Clone, Copy, Debug, PartialEq, Eq, Hash, Structural)]
pub struct Id(pub u128);

/// An enumeration of the various asset classes available.
#[derive(Clone, Copy, Debug, PartialEq, Eq, Structural)]
pub enum Class {
    /// US equities.
    UsEquity,
}

impl Class {
    /// The textual form of the asset class.
    pub fn as_ref(&self) -> (r: &'static str)
        ensures
            r@ == "us_equity"@,
    {
        "us_equity"
    }
}

/// An enumeration of the possible statuses that an asset can have.
#[derive(Clone, Copy, Debug, PartialEq, Eq, Structural)]
pub enum Status {
    /// The asset is active.
    Active,
    /// The asset is inactive.
    Inactive,
}

impl Status {
    /// The textual form of the status.
    pub fn as_ref(&self) -> (r: &'static str)
        ensures
            r@ == (match *self {
                Status::Active => "active"@,
                Status::Inactive => "inactive"@,
            }),
    {
        match *self {
            Status::Active => "active",
            Status::Inactive => "inactive",
        }
    }
}

/// An enumeration of the various supported exchanges.
#[derive(Clone, Copy, Debug, PartialEq, Eq, Structural)]
pub enum Exchange {
    /// American Stock Exchange.
    Amex,
    /// The exchange listed as "ARCA".
    Arca,
    /// BATS Global Markets.
    Bats,
    /// New York Stock Exchange.
    Nyse,
    /// Nasdaq Stock Market.
    Nasdaq,
    /// NYSE Arca.
    Nysearca,
}

/// The representation of an asset as used by Alpaca.
#[derive(Clone, Debug, PartialEq, Eq)]
pub struct Asset {
    /// The asset's ID.
    pub id: Id,
    /// The asset's class.
    pub class: Class,
    /// The exchange the asset is traded at.
    pub exchange: Exchange,
    /// The asset's symbol.
    pub symbol: String,
    /// The asset's status.
    pub status: Status,
    /// Whether the asset is tradable on Alpaca or not.
    pub tradable: bool,
}

/// A GET request to be made to the /v1/assets/{symbol} endpoint.
#[derive(Clone, Debug, PartialEq, Eq)]
pub struct AssetReq {
    /// The symbol of the asset in question.
    pub symbol: String,
}

/// The representation of a GET request to the /v1/assets/{symbol}
/// endpoint.
#[derive(Clone, Copy, Debug)]
pub struct Get;

impl Get {
    /// The HTTP method of the request.
    pub fn method() -> (r: Method)
        ensures
            r == Method::Get,
    {
        Method::Get
    }

    /// The path of the request.
    pub fn path(input: &AssetReq) -> (r: String)
        ensures
            r@ == "/v1/assets/"@ + input.symbol@,
    {
        let mut s = String::new();
        append_str(&mut s, "/v1/assets/");
        append_str(&mut s, input.symbol.as_str());
        s
    }

    /// Evaluate the HTTP status of a response: 200 carries the asset; no asset exists for the symbol on
    /// 404.
    pub fn evaluate(status: u16, message: ApiMessage) -> (r: Result<(), EndpointError>)
        ensures
            r == evaluation(seq![200u16], rate_limited_errors(seq![(404u16, ErrorKind::NotFound)]), status, message),
    {
        let ok = [200u16];
        let errs = [(404u16, ErrorKind::NotFound)];
        proof {
            assert(ok@ =~= seq![200u16]);
            assert(errs@ =~= seq![(404u16, ErrorKind::NotFound)]);
        }
        evaluate_rate_limited(&ok, &errs, status, message)
    }
}

} // verus!
