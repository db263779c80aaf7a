//! Definitions of the events of the trading event stream.

use vstd::prelude::*;

use crate::api::v2::account;
use crate::api::v2::order;
use crate::events::StreamType;
use crate::time_util::Timestamp;

use num_decimal::Num;

verus! {

/// A representation of an account update that we receive through the
/// "account_updates" stream.
#[derive(Clone, Debug, PartialEq)]
pub struct AccountUpdate {
    /// The corresponding account's ID.
    pub id: account::Id,
    /// The time the account was created at.
    pub created_at: Option<Timestamp>,
    /// The time the account was updated last.
    pub updated_at: Option<Timestamp>,
    /// The time the account was deleted at.
    pub deleted_at: Option<Timestamp>,
    /// The account's status.
    pub status: String,
    /// The currency the account uses.
    pub currency: String,
    /// Cash balance.
    pub cash: Num,
    /// Withdrawable cash amount.
    pub withdrawable_cash: Num,
}

/// A type used for requesting a subscription to the "account_updates"
/// event stream.
///
/// It only serves as a type argument: no value of it is ever made.
#[derive(Clone, Copy, Debug)]
pub struct AccountUpdates {
    _private: (),
}

/// The status of a trade, as reported as part of a `TradeUpdate`.
#[derive(Clone, Copy, Debug, PartialEq, Eq, Structural)]
pub enum TradeStatus {
    /// The order has been received by Alpaca, and routed to exchanges for
    /// execution.
    New,
    /// The order has changed.
    Replaced,
    /// The order replacement has been rejected.
    ReplaceRejected,
    /// The order has been partially filled.
    PartialFill,
    /// The order has been filled.
    Filled,
    /// The order is done executing for the day.
    DoneForDay,
    /// The order has been canceled.
    Canceled,
    /// The order cancellation has been rejected.
    CancelRejected,
    /// The order has expired.
    Expired,
    /// The order is waiting to be canceled.
    PendingCancel,
    /// The order has been stopped.
    Stopped,
    /// The order has been rejected.
    Rejected,
    /// The order has been suspended.
    Suspended,
    /// The order has been routed to the exchanges, but has not yet been
    /// accepted for execution.
    PendingNew,
    /// The order is awaiting replacement.
    PendingReplace,
    /// The order has been completed for the day, with settlement
    /// calculations pending.
    Calculated,
    /// Any other status that we have not accounted for.
    Unknown,
}

/// A representation of a trade update that we receive through the
/// "trade_updates" stream.
#[derive(Debug, PartialEq)]
pub struct TradeUpdate {
    /// The event that occurred.
    pub event: TradeStatus,
    /// The order associated with the trade.
    pub order: order::Order,
}

/// A type used for requesting a subscription to the "trade_updates"
/// event stream.
///
/// It only serves as a type argument: no value of it is ever made.
#[derive(Clone, Copy, Debug, PartialEq, Eq)]
pub struct TradeUpdates {
    _private: (),
}

impl TradeUpdates {
    /// The stream that trade updates come through.
    pub fn stream() -> (r: StreamType)
        ensures
            r == StreamType::TradeUpdates,
    {
        StreamType::TradeUpdates
    }
}

} // verus!
