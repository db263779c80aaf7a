//! Definitions for orders (first API version).

use vstd::prelude::*;

use crate::id::append_simple;
use crate::id::uuid_simple;
use crate::text::append_str;
use crate::endpoint::evaluate_rate_limited;
use crate::endpoint::rate_limited_errors;
use crate::endpoint::evaluation;
use crate::endpoint::ApiMessage;
use crate::endpoint::EndpointError;
use crate::endpoint::ErrorKind;
use crate::endpoint::Method;

use num_decimal::Num;

verus! {

/// An ID uniquely identifying an order.
#[derive(Clone, Copy, Debug, PartialEq, Eq, Hash, Structural)]
pub struct Id(pub u128);

/// The status an order can have.
#[derive(Clone, Copy, Debug, PartialEq, Eq, Structural)]
pub enum Status {
    /// The order has been received by Alpaca, and routed to exchanges for
    /// execution.
    New,
    /// The order has been partially filled.
    PartiallyFilled,
    /// The order has been filled.
    Filled,
    /// The order is done executing for the day.
    DoneForDay,
    /// The order has been canceled.
    Canceled,
    /// The order has expired.
    Expired,
    /// The order has been received by Alpaca, but hasn't yet been routed
    /// to the execution venue.
    Accepted,
    /// The order has been routed to the exchanges, but has not yet been
    /// accepted for execution.
    PendingNew,
    /// The order has been received by exchanges, and is evaluated for
    /// pricing.
    AcceptedForBidding,
    /// The order is waiting to be canceled.
    PendingCancel,
    /// The order has been stopped.
    Stopped,
    /// The order has been rejected.
    Rejected,
    /// The order has been suspended.
    Suspended,
    /// The order has been completed for the day, with settlement
    /// calculations pending.
    Calculated,
}

/// The side an order is on.
#[derive(Clone, Copy, Debug, PartialEq, Eq, Structural)]
pub enum Side {
    /// Buy an asset.
    Buy,
    /// Sell an asset.
    Sell,
}

/// The type of an order.
#[derive(Clone, Copy, Debug, PartialEq, Eq, Structural)]
pub enum Type {
    /// A market order.
    Market,
    /// A limit order.
    Limit,
    /// A stop on quote order.
    Stop,
    /// A stop limit order.
    StopLimit,
}

/// A description of the time for which an order is valid.
#[derive(Clone, Copy, Debug, PartialEq, Eq, Structural)]
pub enum TimeInForce {
    /// The order is good for the day.
    Day,
    /// The order is good until canceled.
    UntilCanceled,
}

/// A POST request to be made to the /v1/orders endpoint.
#[derive(Clone, Debug, PartialEq)]
pub struct OrderReq {
    /// Symbol or asset ID to identify the asset to trade.
    pub symbol: String,
    /// Number of shares to trade.
    pub quantity: u64,
    /// The side the order is on.
    pub side: Side,
    /// The type of the order.
    pub type_: Type,
    /// How long the order will be valid.
    pub time_in_force: TimeInForce,
    /// The limit price.
    pub limit_price: Option<Num>,
    /// The stop price.
    pub stop_price: Option<Num>,
}

/// A single order as returned by the /v1/orders endpoint on a GET
/// request.
#[derive(Clone, Debug, PartialEq)]
pub struct Order {
    /// The order's ID.
    pub id: Id,
    /// Client unique order ID.
    pub client_order_id: String,
    /// The status of the order.
    pub status: Status,
    /// Timestamp this order was created at.
    pub created_at: String,
    /// Timestamp this order was updated at last.
    pub updated_at: Option<String>,
    /// Timestamp this order was submitted at.
    pub submitted_at: Option<String>,
    /// Timestamp this order was filled at.
    pub filled_at: Option<String>,
    /// Timestamp this order expired at.
    pub expired_at: Option<String>,
    /// Timestamp this order was canceled at.
    pub canceled_at: Option<String>,
    /// The order's asset class.
    pub asset_class: String,
    /// The ID of the asset represented by the order.
    pub asset_id: String,
    /// The symbol of the asset being traded.
    pub symbol: String,
    /// The quantity being requested.
    pub quantity: Num,
    /// The quantity that was filled.
    pub filled_quantity: Num,
    /// The type of order.
    pub type_: Type,
    /// The side the order is on.
    pub side: Side,
    /// A representation of how long the order will be valid.
    pub time_in_force: TimeInForce,
    /// The limit price.
    pub limit_price: Option<Num>,
    /// The stop price.
    pub stop_price: Option<Num>,
}

/// The representation of a GET request to the /v1/orders/{order-id}
/// endpoint.
#[derive(Clone, Copy, Debug)]
pub struct Get;

impl Get {
    /// The HTTP method of the request.
    pub fn method() -> (r: Method)
        ensures
            r == Method::Get,
    {
        Method::Get
    }

    /// The path of the request.
    pub fn path(input: &Id) -> (r: String)
        ensures
            r@ == "/v1/orders/"@ + uuid_simple(input.0),
    {
        let mut s = String::new();
        append_str(&mut s, "/v1/orders/");
        append_simple(&mut s, input.0);
        s
    }

    /// Evaluate the HTTP status of a response: 200 carries the order; no order exists with the ID on 404.
    pub fn evaluate(status: u16, message: ApiMessage) -> (r: Result<(), EndpointError>)
        ensures
            r == evaluation(seq![200u16], rate_limited_errors(seq![(404u16, ErrorKind::NotFound)]), status, message),
    {
        let ok = [200u16];
        let errs = [(404u16, ErrorKind::NotFound)];
        proof {
            assert(ok@ =~= seq![200u16]);
            assert(errs@ =~= seq![(404u16, ErrorKind::NotFound)]);
        }
        evaluate_rate_limited(&ok, &errs, status, message)
    }
}

/// The representation of a POST request to the /v1/orders endpoint, with
/// the order request as the body.
#[derive(Clone, Copy, Debug)]
pub struct Post;

impl Post {
    /// The HTTP method of the request.
    pub fn method() -> (r: Method)
        ensures
            r == Method::Post,
    {
        Method::Post
    }

    /// The path of the request.
    pub fn path(_input: &OrderReq) -> (r: String)
        ensures
            r@ == "/v1/orders"@,
    {
        String::from_str("/v1/orders")
    }

    /// Evaluate the HTTP status of a response: 200 carries the order; funds were insufficient on 403;
    /// some data of the request was invalid on 422.
    pub fn evaluate(status: u16, message: ApiMessage) -> (r: Result<(), EndpointError>)
        ensures
            r == evaluation(seq![200u16], rate_limited_errors(seq![(403u16, ErrorKind::InsufficientFunds), (422u16, ErrorKind::InvalidInput)]), status, message),
    {
        let ok = [200u16];
        let errs = [(403u16, ErrorKind::InsufficientFunds), (422u16, ErrorKind::InvalidInput)];
        proof {
            assert(ok@ =~= seq![200u16]);
            assert(errs@ =~= seq![(403u16, ErrorKind::InsufficientFunds), (422u16, ErrorKind::InvalidInput)]);
        }
        evaluate_rate_limited(&ok, &errs, status, message)
    }
}

/// The representation of a DELETE request to the /v1/orders/{order-id}
/// endpoint.
#[derive(Clone, Copy, Debug)]
pub struct Delete;

impl Delete {
    /// The HTTP method of the request.
    pub fn method() -> (r: Method)
        ensures
            r == Method::Delete,
    {
        Method::Delete
    }

    /// The path of the request.
    pub fn path(input: &Id) -> (r: String)
        ensures
            r@ == "/v1/orders/"@ + uuid_simple(input.0),
    {
        let mut s = String::new();
        append_str(&mut s, "/v1/orders/");
        append_simple(&mut s, input.0);
        s
    }

    /// Evaluate the HTTP status of a response: the order was canceled on 204, and the (empty) body
    /// carries nothing; no order exists with the ID on 404; the order can
    /// no longer be canceled on 422.
    pub fn evaluate(status: u16, message: ApiMessage) -> (r: Result<(), EndpointError>)
        ensures
            r == evaluation(seq![204u16], rate_limited_errors(seq![(404u16, ErrorKind::NotFound), (422u16, ErrorKind::NotCancelable)]), status, message),
    {
        let ok = [204u16];
        let errs = [(404u16, ErrorKind::NotFound), (422u16, ErrorKind::NotCancelable)];
        proof {
            assert(ok@ =~= seq![204u16]);
            assert(errs@ =~= seq![(404u16, ErrorKind::NotFound), (422u16, ErrorKind::NotCancelable)]);
        }
        evaluate_rate_limited(&ok, &errs, status, message)
    }
}

} // verus!
