//! Definitions for the retrieval of account activities.

use vstd::prelude::*;

use crate::api::v2::order;
use crate::endpoint::evaluate_standard;
use crate::endpoint::evaluation;
use crate::endpoint::standard_errors;
use crate::endpoint::ApiMessage;
use crate::endpoint::EndpointError;
use crate::endpoint::ErrorKind;
use crate::endpoint::Method;
use crate::time_util::Timestamp;

use num_decimal::Num;

verus! {

/// An enumeration of the different account activity types.
#[derive(Clone, Copy, Debug, PartialEq, Eq, Structural)]
pub enum ActivityType {
    /// Order fills (both partial and full fills).
    ///
    /// This variant will only ever be set for trade activities.
    Fill,
    /// Cash transactions (both CSD and CSW).
    Transaction,
    /// Miscellaneous or rarely used activity types.
    Miscellaneous,
    /// ACATS IN/OUT (Cash).
    AcatsInOutCash,
    /// ACATS IN/OUT (Securities).
    AcatsInOutSecurities,
    /// Cash deposit(+).
    CashDeposit,
    /// Cash withdrawal(-).
    CashWithdrawal,
    /// Dividends.
    Dividend,
    /// Dividend (capital gain long term).
    CapitalGainLongTerm,
    /// Dividend (capital gain short term).
    CapitalGainShortTerm,
    /// Dividend fee.
    DividendFee,
    /// Dividend adjusted (Foreign Tax Withheld).
    DividendAdjusted,
    /// Dividend adjusted (NRA Withheld).
    DividendAdjustedNraWithheld,
    /// Dividend return of capital.
    DividendReturnOfCapital,
    /// Dividend adjusted (Tefra Withheld).
    DividendAdjustedTefraWithheld,
    /// Dividend (tax exempt).
    DividendTaxExtempt,
    /// Interest (credit/margin).
    Interest,
    /// Interest adjusted (NRA Withheld).
    InterestAdjustedNraWithheld,
    /// Interest adjusted (Tefra Withheld).
    InterestAdjustedTefraWithheld,
    /// Journal entry.
    JournalEntry,
    /// Journal entry (cash).
    JournalEntryCash,
    /// Journal entry (stock).
    JournalEntryStock,
    /// Merger/Acquisition.
    Acquisition,
    /// Name change.
    NameChange,
    /// Option assignment.
    OptionAssignment,
    /// Option expiration.
    OptionExpiration,
    /// Option exercise.
    OptionExercise,
    /// Pass Thru Charge.
    PassThruCharge,
    /// Pass Thru Rebate.
    PassThruRebate,
    /// SEC and FINRA fees.
    Fee,
    /// Reorg CA.
    Reorg,
    /// Symbol change.
    SymbolChange,
    /// Stock spinoff.
    StockSpinoff,
    /// Stock split.
    StockSplit,
    /// Any other activity type that we have not accounted for.
    ///
    /// Note that having any such type should be considered a bug.
    Unknown,
}

/// An enumeration describing the side of a trade activity.
#[derive(Clone, Copy, Debug, PartialEq, Eq, Structural)]
pub enum Side {
    /// A buy of an asset.
    Buy,
    /// A sale of an asset.
    Sell,
    /// A short sale of an asset.
    ShortSell,
}

/// A trade related activity.
#[derive(Clone, Debug, PartialEq)]
pub struct TradeActivity {
    /// An ID for the activity. Can be sent as `page_token` in requests to
    /// facilitate the paging of results.
    pub id: String,
    /// The time at which the execution occurred.
    pub transaction_time: Timestamp,
    /// The traded symbol.
    pub symbol: String,
    /// The ID of the order this trade activity belongs to.
    pub order_id: order::Id,
    /// The side of a trade.
    pub side: Side,
    /// The number of shares involved in the trade execution.
    pub quantity: u64,
    /// The cumulative quantity of shares involved in the execution.
    pub cumulative_quantity: u64,
    /// For partially filled orders, the quantity of shares that are left
    /// to be filled.
    pub unfilled_quantity: u64,
    /// The per-share price that the trade was executed at.
    pub price: Num,
}

/// A non-trade related activity, with the activity type of type `T`.
#[derive(Clone, Debug, PartialEq)]
pub struct NonTradeActivityImpl<T> {
    /// An ID for the activity. Can be sent as `page_token` in requests to
    /// facilitate the paging of results.
    pub id: String,
    /// The type of non-trade activity.
    ///
    /// Note that the `Fill` variant will never be used here.
    pub type_: T,
    /// The date on which the activity occurred or on which the
    /// transaction associated with the activity settled.
    pub date: Timestamp,
    /// The net amount of money (positive or negative) associated with the
    /// activity.
    pub net_amount: Num,
    /// The symbol of the security involved with the activity. Not present
    /// for all activity types.
    pub symbol: Option<String>,
    /// For dividend activities, the number of shares that contributed to
    /// the payment. Not present for other activity types.
    pub quantity: Option<Num>,
    /// For dividend activities, the average amount paid per share. Not
    /// present for other activity types.
    pub per_share_amount: Option<Num>,
    /// A description of the activity.
    pub description: Option<String>,
}

impl<T> NonTradeActivityImpl<T> {
    /// The same activity with the activity type replaced by
    /// `activity_type`.
    pub fn into_other<U>(self, activity_type: U) -> (r: NonTradeActivityImpl<U>)
        ensures
            r.id == self.id,
            r.type_ == activity_type,
            r.date == self.date,
            r.net_amount == self.net_amount,
            r.symbol == self.symbol,
            r.quantity == self.quantity,
            r.per_share_amount == self.per_share_amount,
            r.description == self.description,
    {
        let NonTradeActivityImpl {
            id,
            type_: _,
            date,
            net_amount,
            symbol,
            quantity,
            per_share_amount,
            description,
        } = self;
        NonTradeActivityImpl::<U> {
            id,
            type_: activity_type,
            date,
            net_amount,
            symbol,
            quantity,
            per_share_amount,
            description,
        }
    }
}

/// A non-trade related activity.
pub type NonTradeActivity = NonTradeActivityImpl<ActivityType>;

/// An account activity.
#[derive(Clone, Debug, PartialEq)]
pub enum Activity {
    /// A trade activity.
    Trade(TradeActivity),
    /// A non-trade activity (e.g., a dividend payment).
    NonTrade(NonTradeActivity),
}

/// The ID of an activity.
pub open spec fn activity_id(a: Activity) -> Seq<char> {
    match a {
        Activity::Trade(t) => t.id@,
        Activity::NonTrade(n) => n.id@,
    }
}

/// The time of an activity.
pub open spec fn activity_time(a: Activity) -> Timestamp {
    match a {
        Activity::Trade(t) => t.transaction_time,
        Activity::NonTrade(n) => n.date,
    }
}

/// The ID of an activity is the ID of the trade or non-trade activity it
/// holds, and its time is that trade's transaction time or that non-trade
/// activity's date: whatever else the activity carries plays no part.
pub proof fn lemma_activity_id_time(t: TradeActivity, n: NonTradeActivity)
    ensures
        activity_id(Activity::Trade(t)) == t.id@,
        activity_id(Activity::NonTrade(n)) == n.id@,
        activity_time(Activity::Trade(t)) == t.transaction_time,
        activity_time(Activity::NonTrade(n)) == n.date,
{
}

impl Activity {
    /// Retrieve the activity's ID.
    pub fn id(&self) -> (r: &str)
        ensures
            r@ == activity_id(*self),
            r@ == (match *self {
                Activity::Trade(t) => t.id@,
                Activity::NonTrade(n) => n.id@,
            }),
    {
        match self {
            Activity::Trade(trade) => trade.id.as_str(),
            Activity::NonTrade(non_trade) => non_trade.id.as_str(),
        }
    }

    /// The time at which the activity occurred.
    pub fn time(&self) -> (r: Timestamp)
        ensures
            r == activity_time(*self),
            r == (match *self {
                Activity::Trade(t) => t.transaction_time,
                Activity::NonTrade(n) => n.date,
            }),
    {
        match self {
            Activity::Trade(trade) => trade.transaction_time,
            Activity::NonTrade(non_trade) => non_trade.date,
        }
    }

    /// Convert this activity into a trade activity, if it is of the
    /// corresponding variant; hand it back otherwise.
    pub fn into_trade(self) -> (r: Result<TradeActivity, Self>)
        ensures
            match self {
                Activity::Trade(t) => r == Ok::<TradeActivity, Activity>(t),
                Activity::NonTrade(_) => r == Err::<TradeActivity, Activity>(self),
            },
    {
        match self {
            Activity::Trade(trade) => Ok(trade),
            Activity::NonTrade(non_trade) => Err(Activity::NonTrade(non_trade)),
        }
    }

    /// Convert this activity into a non-trade activity, if it is of the
    /// corresponding variant; hand it back otherwise.
    pub fn into_non_trade(self) -> (r: Result<NonTradeActivity, Self>)
        ensures
            match self {
                Activity::Trade(_) => r == Err::<NonTradeActivity, Activity>(self),
                Activity::NonTrade(n) => r == Ok::<NonTradeActivity, Activity>(n),
            },
    {
        match self {
            Activity::Trade(trade) => Err(Activity::Trade(trade)),
            Activity::NonTrade(non_trade) => Ok(non_trade),
        }
    }
}

/// The direction in which account activities are reported.
#[derive(Clone, Copy, Debug, PartialEq, Eq, Structural)]
pub enum Direction {
    /// Report account activity in descending order, i.e., from more
    /// recent activities to older ones.
    Descending,
    /// Report account activity in ascending order, i.e., from older
    /// activities to more recent ones.
    Ascending,
}

impl Default for Direction {
    fn default() -> (r: Self)
        ensures
            r == Direction::Descending,
    {
        Direction::Descending
    }
}

/// A GET request to be made to the /v2/account/activities endpoint.
#[derive(Clone, Debug, PartialEq)]
pub struct ActivityReq {
    /// The types of activities to retrieve.
    ///
    /// If empty all activities will be retrieved.
    pub types: Vec<ActivityType>,
    /// The direction in which to report account activities.
    pub direction: Direction,
    /// The response will contain only activities until this time.
    pub until: Option<Timestamp>,
    /// The response will contain only activities dated after this time.
    pub after: Option<Timestamp>,
    /// The maximum number of entries to return in the response.
    ///
    /// The default and maximum value is 100.
    pub page_size: Option<usize>,
    /// The ID of the end of your current page of results.
    pub page_token: Option<String>,
}

impl Default for ActivityReq {
    fn default() -> (r: Self)
        ensures
            r.types@ == Seq::<ActivityType>::empty(),
            r.direction == Direction::Descending,
            r.until is None,
            r.after is None,
            r.page_size is None,
            r.page_token is None,
    {
        ActivityReq {
            types: Vec::new(),
            direction: Direction::default(),
            until: None,
            after: None,
            page_size: None,
            page_token: None,
        }
    }
}

/// The representation of a GET request to the /v2/account/activities
/// endpoint, with the activity request in the query.
#[derive(Clone, Copy, Debug)]
pub struct Get;

impl Get {
    /// The HTTP method of the request.
    pub fn method() -> (r: Method)
        ensures
            r == Method::Get,
    {
        Method::Get
    }

    /// The path of the request.
    pub fn path(_input: &ActivityReq) -> (r: String)
        ensures
            r@ == "/v2/account/activities"@,
    {
        String::from_str("/v2/account/activities")
    }

    /// Evaluate the HTTP status of a response: 200 carries the
    /// activities.
    pub fn evaluate(status: u16, message: ApiMessage) -> (r: Result<(), EndpointError>)
        ensures
            r == evaluation(seq![200u16], standard_errors(seq![]), status, message),
    {
        let ok = [200u16];
        let errs: [(u16, ErrorKind); 0] = [];
        proof {
            assert(ok@ =~= seq![200u16]);
            assert(errs@ =~= Seq::<(u16, ErrorKind)>::empty());
        }
        evaluate_standard(&ok, &errs, status, message)
    }
}

} // verus!
