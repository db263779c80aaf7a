//! Definitions for the submission, change, retrieval, and cancellation
//! of orders.

use vstd::prelude::*;
use vstd::std_specs::convert::FromSpec;

use core::ops::Not;

use crate::api::v2::asset;
use crate::endpoint::evaluate_standard;
use crate::endpoint::evaluation;
use crate::endpoint::standard_errors;
use crate::endpoint::ApiMessage;
use crate::endpoint::EndpointError;
use crate::endpoint::ErrorKind;
use crate::endpoint::Method;
use crate::id::append_simple;
use crate::id::uuid_simple;
use crate::text::append_str;
use crate::time_util::Timestamp;

use num_decimal::Num;

verus! {

/// An ID uniquely identifying an order.
#[derive(Clone, Copy, Debug, PartialEq, Eq, Hash, Structural)]
pub struct Id(pub u128);

/// The status an order can have.
#[derive(Clone, Copy, Debug, PartialEq, Eq, Structural)]
pub enum Status {
    /// The order has been received by Alpaca, and routed to exchanges for
    /// execution. This is the usual initial state of an order.
    New,
    /// The order has changed.
    Replaced,
    /// The order has been partially filled.
    PartiallyFilled,
    /// The order has been filled, and no further updates will occur for
    /// the order.
    Filled,
    /// The order is done executing for the day, and will not receive
    /// further updates until the next trading day.
    DoneForDay,
    /// The order has been canceled, and no further updates will occur for
    /// the order.
    Canceled,
    /// The order has expired, and no further updates will occur for the
    /// order.
    Expired,
    /// The order has been received by Alpaca, but hasn't yet been routed
    /// to the execution venue.
    Accepted,
    /// The order has been received by Alpaca, and routed to the
    /// exchanges, but has not yet been accepted for execution.
    PendingNew,
    /// The order has been received by exchanges, and is evaluated for
    /// pricing.
    AcceptedForBidding,
    /// The order is waiting to be canceled.
    PendingCancel,
    /// The order is awaiting replacement.
    PendingReplace,
    /// The order has been stopped, and a trade is guaranteed for the
    /// order, usually at a stated price or better, but has not yet
    /// occurred.
    Stopped,
    /// The order has been rejected, and no further updates will occur for
    /// the order.
    Rejected,
    /// The order has been suspended, and is not eligible for trading.
    Suspended,
    /// The order has been completed for the day (either filled or done
    /// for day), but remaining settlement calculations are still pending.
    Calculated,
    /// The order is still being held, as the legs of bracket-style orders
    /// are before the primary order has filled.
    Held,
    /// Any other status that we have not accounted for.
    ///
    /// Note that having any such status should be considered a bug.
    Unknown,
}

/// Whether no more changes will occur to an order with the given status.
pub open spec fn terminal(s: Status) -> bool {
    s is Replaced || s is Filled || s is Canceled || s is Expired || s is Rejected
}

/// The final states of an order are exactly replaced, filled, canceled,
/// expired and rejected; an order in any other state may still change.
pub proof fn lemma_terminal(s: Status)
    ensures
        terminal(Status::Replaced),
        terminal(Status::Filled),
        terminal(Status::Canceled),
        terminal(Status::Expired),
        terminal(Status::Rejected),
        !(s == Status::Replaced || s == Status::Filled || s == Status::Canceled || s
            == Status::Expired || s == Status::Rejected) ==> !terminal(s),
{
}

impl Status {
    /// Check whether the status is terminal, i.e., no more changes will
    /// occur to the associated order.
    pub fn is_terminal(self) -> (r: bool)
        ensures
            r == terminal(self),
    {
        match self {
            Status::Replaced | Status::Filled | Status::Canceled | Status::Expired
            | Status::Rejected => true,
            _ => false,
        }
    }
}

/// The side an order is on.
#[derive(Clone, Copy, Debug, PartialEq, Eq, Structural)]
pub enum Side {
    /// Buy an asset.
    Buy,
    /// Sell an asset.
    Sell,
}

/// The opposite side.
pub open spec fn opposite(side: Side) -> Side {
    match side {
        Side::Buy => Side::Sell,
        Side::Sell => Side::Buy,
    }
}

impl Not for Side {
    type Output = Self;

    fn not(self) -> (r: Self::Output)
        ensures
            r == opposite(self),
    {
        match self {
            Side::Buy => Side::Sell,
            Side::Sell => Side::Buy,
        }
    }
}

impl vstd::std_specs::ops::NotSpecImpl for Side {
    open spec fn obeys_not_spec() -> bool {
        true
    }

    open spec fn not_req(self) -> bool {
        true
    }

    open spec fn not_spec(self) -> Self {
        opposite(self)
    }
}

/// Negating a side twice gives it back, and no side is its own
/// opposite.
pub proof fn lemma_side_negation(side: Side)
    ensures
        opposite(opposite(side)) == side,
        opposite(side) != side,
{
}

/// The class an order belongs to.
#[derive(Clone, Copy, Debug, PartialEq, Eq, Structural)]
pub enum Class {
    /// Any non-bracket order (i.e., regular market, limit, or stop loss
    /// orders).
    Simple,
    /// A bracket order is a chain of three orders that can be used to
    /// manage your position entry and exit.
    Bracket,
    /// A one-cancels-other is a set of two orders with the same side
    /// (buy/buy or sell/sell), of which only exit orders are supported.
    OneCancelsOther,
    /// A one-triggers-other order that can either have a take-profit or
    /// stop-loss leg set.
    OneTriggersOther,
}

impl Default for Class {
    fn default() -> (r: Self)
        ensures
            r == Class::Simple,
    {
        Class::Simple
    }
}

/// The type of an order.
#[derive(Clone, Copy, Debug, PartialEq, Eq, Structural)]
pub enum Type {
    /// A market order.
    Market,
    /// A limit order.
    Limit,
    /// A stop on quote order.
    Stop,
    /// A stop limit order.
    StopLimit,
    /// A trailing stop order.
    TrailingStop,
}

impl Default for Type {
    fn default() -> (r: Self)
        ensures
            r == Type::Market,
    {
        Type::Market
    }
}

/// A description of the time for which an order is valid.
#[derive(Clone, Copy, Debug, PartialEq, Eq, Structural)]
pub enum TimeInForce {
    /// The order is good for the day, and it will be canceled
    /// automatically at the end of Regular Trading Hours if unfilled.
    Day,
    /// The order is only executed if the entire order quantity can be
    /// filled, otherwise the order is canceled.
    FillOrKill,
    /// The order requires all or part of the order to be executed
    /// immediately. Any unfilled portion of the order is canceled.
    ImmediateOrCancel,
    /// The order is good until canceled.
    UntilCanceled,
    /// This order is eligible to execute only in the market opening
    /// auction. Any unfilled orders after the open will be canceled.
    UntilMarketOpen,
    /// This order is eligible to execute only in the market closing
    /// auction. Any unfilled orders after the close will be canceled.
    UntilMarketClose,
}

impl Default for TimeInForce {
    fn default() -> (r: Self)
        ensures
            r == TimeInForce::Day,
    {
        TimeInForce::Day
    }
}

/// The take profit part of a bracket, one-cancels-other, or
/// one-triggers-other order.
#[derive(Clone, Debug, PartialEq, Eq)]
pub enum TakeProfit {
    /// The limit price to use.
    Limit(Num),
}

impl TakeProfit {
    /// The take profit part for the given limit price (as it appears on
    /// the wire).
    pub fn from_limit_price(limit_price: Num) -> (r: TakeProfit)
        ensures
            r == TakeProfit::Limit(limit_price),
    {
        TakeProfit::Limit(limit_price)
    }

    /// The limit price (as it appears on the wire).
    pub fn into_limit_price(self) -> (r: Num)
        ensures
            self == TakeProfit::Limit(r),
    {
        match self {
            TakeProfit::Limit(limit_price) => limit_price,
        }
    }
}

/// The stop loss part of a bracket, one-cancels-other, or
/// one-triggers-other order.
#[derive(Clone, Debug, PartialEq, Eq)]
pub enum StopLoss {
    /// The stop loss price to use.
    Stop(Num),
    /// The stop loss and stop limit price to use.
    StopLimit(Num, Num),
}

/// The stop loss part as it appears on the wire: a stop price and, for a
/// stop limit, a limit price.
#[derive(Clone, Debug, PartialEq, Eq)]
pub struct StopLossSerde {
    /// The stop price.
    pub stop_price: Num,
    /// The limit price, if any.
    pub limit_price: Option<Num>,
}

/// The stop loss part that wire fields describe: with a limit price it is
/// a stop limit.
pub open spec fn stop_loss_of(other: StopLossSerde) -> StopLoss {
    match other.limit_price {
        Some(limit) => StopLoss::StopLimit(other.stop_price, limit),
        None => StopLoss::Stop(other.stop_price),
    }
}

/// The wire fields of a stop loss part.
pub open spec fn stop_loss_fields(other: StopLoss) -> StopLossSerde {
    match other {
        StopLoss::Stop(stop) => StopLossSerde { stop_price: stop, limit_price: None },
        StopLoss::StopLimit(stop, limit) => StopLossSerde {
            stop_price: stop,
            limit_price: Some(limit),
        },
    }
}

impl From<StopLossSerde> for StopLoss {
    fn from(other: StopLossSerde) -> (r: Self)
        ensures
            r == stop_loss_of(other),
    {
        match other.limit_price {
            Some(limit_price) => StopLoss::StopLimit(other.stop_price, limit_price),
            None => StopLoss::Stop(other.stop_price),
        }
    }
}

impl vstd::std_specs::convert::FromSpecImpl<StopLossSerde> for StopLoss {
    open spec fn obeys_from_spec() -> bool {
        true
    }

    open spec fn from_spec(v: StopLossSerde) -> Self {
        stop_loss_of(v)
    }
}

impl From<StopLoss> for StopLossSerde {
    fn from(other: StopLoss) -> (r: Self)
        ensures
            r == stop_loss_fields(other),
    {
        match other {
            StopLoss::Stop(stop_price) => StopLossSerde { stop_price, limit_price: None },
            StopLoss::StopLimit(stop_price, limit_price) => StopLossSerde {
                stop_price,
                limit_price: Some(limit_price),
            },
        }
    }
}

impl vstd::std_specs::convert::FromSpecImpl<StopLoss> for StopLossSerde {
    open spec fn obeys_from_spec() -> bool {
        true
    }

    open spec fn from_spec(v: StopLoss) -> Self {
        stop_loss_fields(v)
    }
}

/// A stop loss part survives the trip to its wire fields and back
/// (`StopLoss::from(StopLossSerde::from(x)) == x`), and so do the wire
/// fields.
pub proof fn lemma_stop_loss_round_trip(x: StopLoss, w: StopLossSerde)
    ensures
        <StopLoss as FromSpec<StopLossSerde>>::from_spec(
            <StopLossSerde as FromSpec<StopLoss>>::from_spec(x),
        ) == x,
        <StopLossSerde as FromSpec<StopLoss>>::from_spec(
            <StopLoss as FromSpec<StopLossSerde>>::from_spec(w),
        ) == w,
{
}

/// An abstraction to be able to handle orders in both notional and
/// quantity units.
#[derive(Clone, Debug, PartialEq, Eq)]
pub enum Amount {
    /// Wrapper for the quantity field.
    Quantity {
        /// A number of shares to order. This can be a fractional number
        /// if trading fractionals or a whole number if not.
        quantity: Num,
    },
    /// Wrapper for the notional field.
    Notional {
        /// A dollar amount to use for the order. This can result in
        /// fractional quantities.
        notional: Num,
    },
}

impl Amount {
    /// Helper method to initialize a quantity.
    pub fn quantity(amount: Num) -> (r: Self)
        ensures
            r == (Amount::Quantity { quantity: amount }),
    {
        Amount::Quantity { quantity: amount }
    }

    /// Helper method to initialize a notional.
    pub fn notional(amount: Num) -> (r: Self)
        ensures
            r == (Amount::Notional { notional: amount }),
    {
        Amount::Notional { notional: amount }
    }
}

/// A helper for initializing `OrderReq` objects.
#[derive(Clone, Debug, PartialEq, Eq)]
pub struct OrderReqInit {
    /// See `OrderReq::class`.
    pub class: Class,
    /// See `OrderReq::type_`.
    pub type_: Type,
    /// See `OrderReq::time_in_force`.
    pub time_in_force: TimeInForce,
    /// See `OrderReq::limit_price`.
    pub limit_price: Option<Num>,
    /// See `OrderReq::stop_price`.
    pub stop_price: Option<Num>,
    /// See `OrderReq::trail_price`.
    pub trail_price: Option<Num>,
    /// See `OrderReq::trail_percent`.
    pub trail_percent: Option<Num>,
    /// See `OrderReq::take_profit`.
    pub take_profit: Option<TakeProfit>,
    /// See `OrderReq::stop_loss`.
    pub stop_loss: Option<StopLoss>,
    /// See `OrderReq::extended_hours`.
    pub extended_hours: bool,
    /// See `OrderReq::client_order_id`.
    pub client_order_id: Option<String>,
}

impl Default for OrderReqInit {
    fn default() -> (r: Self)
        ensures
            r.class == Class::Simple,
            r.type_ == Type::Market,
            r.time_in_force == TimeInForce::Day,
            r.limit_price is None,
            r.stop_price is None,
            r.trail_price is None,
            r.trail_percent is None,
            r.take_profit is None,
            r.stop_loss is None,
            !r.extended_hours,
            r.client_order_id is None,
    {
        OrderReqInit {
            class: Class::default(),
            type_: Type::default(),
            time_in_force: TimeInForce::default(),
            limit_price: None,
            stop_price: None,
            trail_price: None,
            trail_percent: None,
            take_profit: None,
            stop_loss: None,
            extended_hours: false,
            client_order_id: None,
        }
    }
}

impl OrderReqInit {
    /// Create an `OrderReq` from an `OrderReqInit`.
    ///
    /// The provided symbol is assumed to be a "simple" symbol and not any
    /// of the composite forms of the [`Symbol`][asset::Symbol] enum. That
    /// is, it is not being parsed but directly treated as the
    /// [`Sym`][asset::Symbol::Sym] variant.
    pub fn init(self, symbol: String, side: Side, amount: Amount) -> (r: OrderReq)
        ensures
            r.symbol == asset::Symbol::Sym(symbol),
            r.amount == amount,
            r.side == side,
            r.class == self.class,
            r.type_ == self.type_,
            r.time_in_force == self.time_in_force,
            r.limit_price == self.limit_price,
            r.stop_price == self.stop_price,
            r.trail_price == self.trail_price,
            r.trail_percent == self.trail_percent,
            r.take_profit == self.take_profit,
            r.stop_loss == self.stop_loss,
            r.extended_hours == self.extended_hours,
            r.client_order_id == self.client_order_id,
    {
        OrderReq {
            symbol: asset::Symbol::Sym(symbol),
            amount,
            side,
            class: self.class,
            type_: self.type_,
            time_in_force: self.time_in_force,
            limit_price: self.limit_price,
            stop_price: self.stop_price,
            trail_price: self.trail_price,
            trail_percent: self.trail_percent,
            take_profit: self.take_profit,
            stop_loss: self.stop_loss,
            extended_hours: self.extended_hours,
            client_order_id: self.client_order_id,
        }
    }
}

/// A POST request to be made to the /v2/orders endpoint.
#[derive(Clone, Debug, PartialEq, Eq)]
pub struct OrderReq {
    /// Symbol or asset ID to identify the asset to trade.
    pub symbol: asset::Symbol,
    /// Amount of shares to trade.
    pub amount: Amount,
    /// The side the order is on.
    pub side: Side,
    /// The order class.
    pub class: Class,
    /// The type of the order.
    pub type_: Type,
    /// How long the order will be valid.
    pub time_in_force: TimeInForce,
    /// The limit price.
    pub limit_price: Option<Num>,
    /// The stop price.
    pub stop_price: Option<Num>,
    /// The dollar value away from the high water mark.
    pub trail_price: Option<Num>,
    /// The percent value away from the high water mark.
    pub trail_percent: Option<Num>,
    /// Take profit information for bracket-style orders.
    pub take_profit: Option<TakeProfit>,
    /// Stop loss information for bracket-style orders.
    pub stop_loss: Option<StopLoss>,
    /// Whether or not the order is eligible to execute during
    /// pre-market/after hours. Note that a value of `true` can only be
    /// combined with limit orders that are good for the day (i.e.,
    /// `TimeInForce::Day`).
    pub extended_hours: bool,
    /// Client unique order ID (free form string).
    ///
    /// This ID is entirely under control of the client, but kept and
    /// passed along by Alpaca. The documented maximum length is 48
    /// characters.
    pub client_order_id: Option<String>,
}

/// A helper for initializing `ChangeReq` objects.
#[derive(Clone, Debug, PartialEq, Eq)]
pub struct ChangeReqInit {
    /// See `ChangeReq::quantity`.
    pub quantity: Option<Num>,
    /// See `ChangeReq::time_in_force`.
    pub time_in_force: Option<TimeInForce>,
    /// See `ChangeReq::limit_price`.
    pub limit_price: Option<Num>,
    /// See `ChangeReq::stop_price`.
    pub stop_price: Option<Num>,
    /// See `ChangeReq::trail`.
    pub trail: Option<Num>,
    /// See `ChangeReq::client_order_id`.
    pub client_order_id: Option<String>,
}

impl Default for ChangeReqInit {
    fn default() -> (r: Self)
        ensures
            r.quantity is None,
            r.time_in_force is None,
            r.limit_price is None,
            r.stop_price is None,
            r.trail is None,
            r.client_order_id is None,
    {
        ChangeReqInit {
            quantity: None,
            time_in_force: None,
            limit_price: None,
            stop_price: None,
            trail: None,
            client_order_id: None,
        }
    }
}

impl ChangeReqInit {
    /// Create a `ChangeReq` from a `ChangeReqInit`.
    pub fn init(self) -> (r: ChangeReq)
        ensures
            r.quantity == self.quantity,
            r.time_in_force == self.time_in_force,
            r.limit_price == self.limit_price,
            r.stop_price == self.stop_price,
            r.trail == self.trail,
            r.client_order_id == self.client_order_id,
    {
        ChangeReq {
            quantity: self.quantity,
            time_in_force: self.time_in_force,
            limit_price: self.limit_price,
            stop_price: self.stop_price,
            trail: self.trail,
            client_order_id: self.client_order_id,
        }
    }
}

/// A PATCH request to be made to the /v2/orders/{order-id} endpoint.
#[derive(Clone, Debug, PartialEq, Eq)]
pub struct ChangeReq {
    /// Number of shares to trade.
    pub quantity: Option<Num>,
    /// How long the order will be valid.
    pub time_in_force: Option<TimeInForce>,
    /// The limit price.
    pub limit_price: Option<Num>,
    /// The stop price.
    pub stop_price: Option<Num>,
    /// The new value of the `trail_price` or `trail_percent` value.
    pub trail: Option<Num>,
    /// Client unique order ID (free form string).
    pub client_order_id: Option<String>,
}

/// A single order as returned by the /v2/orders endpoint on a GET
/// request.
#[derive(Debug, PartialEq)]
pub struct Order {
    /// The order's ID.
    pub id: Id,
    /// Client unique order ID.
    pub client_order_id: String,
    /// The status of the order.
    pub status: Status,
    /// Timestamp this order was created at.
    pub created_at: Timestamp,
    /// Timestamp this order was updated at last.
    pub updated_at: Option<Timestamp>,
    /// Timestamp this order was submitted at.
    pub submitted_at: Option<Timestamp>,
    /// Timestamp this order was filled at.
    pub filled_at: Option<Timestamp>,
    /// Timestamp this order expired at.
    pub expired_at: Option<Timestamp>,
    /// Timestamp this order was canceled at.
    pub canceled_at: Option<Timestamp>,
    /// The order's asset class.
    pub asset_class: asset::Class,
    /// The ID of the asset represented by the order.
    pub asset_id: asset::Id,
    /// The symbol of the asset being traded.
    pub symbol: String,
    /// The amount being requested.
    pub amount: Amount,
    /// The quantity that was filled.
    pub filled_quantity: Num,
    /// The type of order.
    pub type_: Type,
    /// The order class.
    pub class: Class,
    /// The side the order is on.
    pub side: Side,
    /// A representation of how long the order will be valid.
    pub time_in_force: TimeInForce,
    /// The limit price.
    pub limit_price: Option<Num>,
    /// The stop price.
    pub stop_price: Option<Num>,
    /// The dollar value away from the high water mark.
    pub trail_price: Option<Num>,
    /// The percent value away from the high water mark.
    pub trail_percent: Option<Num>,
    /// The average price at which the order was filled.
    pub average_fill_price: Option<Num>,
    /// If true, the order is eligible for execution outside regular
    /// trading hours.
    pub extended_hours: bool,
    /// Additional legs of the order, such as the order for the take
    /// profit part of a bracket-style order.
    pub legs: Vec<Order>,
}

/// The path of the resource of the order with the given ID.
pub open spec fn order_path(id: Id) -> Seq<char> {
    "/v2/orders/"@ + uuid_simple(id.0)
}

/// The path of an order is `/v2/orders/` followed by the 32 lower case
/// hexadecimal digits of its ID, without hyphens.
pub proof fn lemma_order_path(id: Id)
    ensures
        order_path(id) == seq!['/', 'v', '2', '/', 'o', 'r', 'd', 'e', 'r', 's', '/'] + uuid_simple(
            id.0,
        ),
        order_path(id).len() == 43,
{
    reveal_strlit("/v2/orders/");
    crate::id::lemma_uuid_simple(id.0);
}

fn append_order_path(s: &mut String, id: Id)
    ensures
        final(s)@ == old(s)@ + order_path(id),
{
    append_str(s, "/v2/orders/");
    append_simple(s, id.0);
    assert(final(s)@ =~= old(s)@ + order_path(id));
}

fn order_path_string(id: Id) -> (r: String)
    ensures
        r@ == order_path(id),
{
    let mut s = String::new();
    append_order_path(&mut s, id);
    assert(Seq::<char>::empty() + order_path(id) =~= order_path(id));
    s
}

/// The representation of a GET request to the /v2/orders/{order-id}
/// endpoint.
#[derive(Clone, Copy, Debug)]
pub struct Get;

impl Get {
    /// The HTTP method of the request.
    pub fn method() -> (r: Method)
        ensures
            r == Method::Get,
    {
        Method::Get
    }

    /// The path of the request: the order's ID in its simple form.
    pub fn path(input: &Id) -> (r: String)
        ensures
            r@ == order_path(*input),
    {
        order_path_string(*input)
    }

    /// Evaluate the HTTP status of a response: 200 carries the order; no
    /// order exists with the ID on 404.
    pub fn evaluate(status: u16, message: ApiMessage) -> (r: Result<(), EndpointError>)
        ensures
            r == evaluation(
                seq![200u16],
                standard_errors(seq![(404u16, ErrorKind::NotFound)]),
                status,
                message,
            ),
    {
        let ok = [200u16];
        let errs = [(404u16, ErrorKind::NotFound)];
        proof {
            assert(ok@ =~= seq![200u16]);
            assert(errs@ =~= seq![(404u16, ErrorKind::NotFound)]);
        }
        evaluate_standard(&ok, &errs, status, message)
    }
}

/// The representation of a GET request to the
/// /v2/orders:by_client_order_id endpoint, with the client order ID in
/// the query.
#[derive(Clone, Copy, Debug)]
pub struct GetByClientId;

impl GetByClientId {
    /// The HTTP method of the request.
    pub fn method() -> (r: Method)
        ensures
            r == Method::Get,
    {
        Method::Get
    }

    /// The path of the request.
    pub fn path(_input: &String) -> (r: String)
        ensures
            r@ == "/v2/orders:by_client_order_id"@,
    {
        String::from_str("/v2/orders:by_client_order_id")
    }

    /// Evaluate the HTTP status of a response: 200 carries the order; no
    /// order exists with the client ID on 404.
    pub fn evaluate(status: u16, message: ApiMessage) -> (r: Result<(), EndpointError>)
        ensures
            r == evaluation(
                seq![200u16],
                standard_errors(seq![(404u16, ErrorKind::NotFound)]),
                status,
                message,
            ),
    {
        let ok = [200u16];
        let errs = [(404u16, ErrorKind::NotFound)];
        proof {
            assert(ok@ =~= seq![200u16]);
            assert(errs@ =~= seq![(404u16, ErrorKind::NotFound)]);
        }
        evaluate_standard(&ok, &errs, status, message)
    }
}

/// The representation of a POST request to the /v2/orders endpoint,
/// with the order request as the body.
#[derive(Clone, Copy, Debug)]
pub struct Post;

impl Post {
    /// The HTTP method of the request.
    pub fn method() -> (r: Method)
        ensures
            r == Method::Post,
    {
        Method::Post
    }

    /// The path of the request.
    pub fn path(_input: &OrderReq) -> (r: String)
        ensures
            r@ == "/v2/orders"@,
    {
        String::from_str("/v2/orders")
    }

    /// Evaluate the HTTP status of a response: 200 carries the submitted
    /// order; the submission was not permitted on 403 (for instance for
    /// lack of funds); some data of the request was invalid on 422.
    pub fn evaluate(status: u16, message: ApiMessage) -> (r: Result<(), EndpointError>)
        ensures
            r == evaluation(
                seq![200u16],
                standard_errors(
                    seq![(403u16, ErrorKind::NotPermitted), (422u16, ErrorKind::InvalidInput)],
                ),
                status,
                message,
            ),
    {
        let ok = [200u16];
        let errs = [(403u16, ErrorKind::NotPermitted), (422u16, ErrorKind::InvalidInput)];
        proof {
            assert(ok@ =~= seq![200u16]);
            assert(errs@ =~= seq![
                (403u16, ErrorKind::NotPermitted),
                (422u16, ErrorKind::InvalidInput),
            ]);
        }
        evaluate_standard(&ok, &errs, status, message)
    }
}

/// The representation of a PATCH request to the /v2/orders/{order-id}
/// endpoint, with the change request as the body.
#[derive(Clone, Copy, Debug)]
pub struct Patch;

impl Patch {
    /// The HTTP method of the request.
    pub fn method() -> (r: Method)
        ensures
            r == Method::Patch,
    {
        Method::Patch
    }

    /// The path of the request: the ID of the order to change in its
    /// simple form.
    pub fn path(input: &(Id, ChangeReq)) -> (r: String)
        ensures
            r@ == order_path(input.0),
    {
        order_path_string(input.0)
    }

    /// Evaluate the HTTP status of a response: 200 carries the changed
    /// order; the change was not permitted on 403; no order exists with
    /// the ID on 404; some data of the request was invalid on 422.
    pub fn evaluate(status: u16, message: ApiMessage) -> (r: Result<(), EndpointError>)
        ensures
            r == evaluation(
                seq![200u16],
                standard_errors(
                    seq![
                        (403u16, ErrorKind::NotPermitted),
                        (404u16, ErrorKind::NotFound),
                        (422u16, ErrorKind::InvalidInput),
                    ],
                ),
                status,
                message,
            ),
    {
        let ok = [200u16];
        let errs = [
            (403u16, ErrorKind::NotPermitted),
            (404u16, ErrorKind::NotFound),
            (422u16, ErrorKind::InvalidInput),
        ];
        proof {
            assert(ok@ =~= seq![200u16]);
            assert(errs@ =~= seq![
                (403u16, ErrorKind::NotPermitted),
                (404u16, ErrorKind::NotFound),
                (422u16, ErrorKind::InvalidInput),
            ]);
        }
        evaluate_standard(&ok, &errs, status, message)
    }
}

/// The representation of a DELETE request to the /v2/orders/{order-id}
/// endpoint.
#[derive(Clone, Copy, Debug)]
pub struct Delete;

impl Delete {
    /// The HTTP method of the request.
    pub fn method() -> (r: Method)
        ensures
            r == Method::Delete,
    {
        Method::Delete
    }

    /// The path of the request: the ID of the order to cancel in its
    /// simple form.
    pub fn path(input: &Id) -> (r: String)
        ensures
            r@ == order_path(*input),
    {
        order_path_string(*input)
    }

    /// Evaluate the HTTP status of a response: the order was canceled on
    /// 204, and the (empty) body carries nothing; no order exists with the
    /// ID on 404; the order can no longer be canceled on 422.
    pub fn evaluate(status: u16, message: ApiMessage) -> (r: Result<(), EndpointError>)
        ensures
            r == evaluation(
                seq![204u16],
                standard_errors(
                    seq![(404u16, ErrorKind::NotFound), (422u16, ErrorKind::NotCancelable)],
                ),
                status,
                message,
            ),
    {
        let ok = [204u16];
        let errs = [(404u16, ErrorKind::NotFound), (422u16, ErrorKind::NotCancelable)];
        proof {
            assert(ok@ =~= seq![204u16]);
            assert(errs@ =~= seq![
                (404u16, ErrorKind::NotFound),
                (422u16, ErrorKind::NotCancelable),
            ]);
        }
        evaluate_standard(&ok, &errs, status, message)
    }
}

} // verus!
