use apca::api::v2::account_activities::Activity;
use apca::api::v2::account_activities::ActivityReq;
use apca::api::v2::account_activities::ActivityType;
use apca::api::v2::account_activities::Direction;
use apca::api::v2::account_activities::NonTradeActivityImpl;
use apca::api::v2::account_activities::Side;
use apca::api::v2::account_activities::TradeActivity;
use apca::api::v2::order;
use apca::time_util::Timestamp;

use num_decimal::Num;

fn non_trade() -> NonTradeActivityImpl<Option<()>> {
    NonTradeActivityImpl {
        id: "20190801011955195::5f596936-6f23-4cef-bdf1-3806aae57dbf".to_string(),
        type_: None,
        date: Timestamp { secs: 1564617600, nanos: 0 },
        net_amount: Num::from(1),
        symbol: Some("T".to_string()),
        quantity: Some(Num::from(2)),
        per_share_amount: None,
        description: None,
    }
}

/// Replacing the activity type keeps everything else.
#[test]
fn into_other_keeps_fields() {
    let activity = non_trade().into_other(ActivityType::Dividend);
    assert_eq!(activity.type_, ActivityType::Dividend);
    assert_eq!(activity.id, "20190801011955195::5f596936-6f23-4cef-bdf1-3806aae57dbf");
    assert_eq!(activity.date, Timestamp { secs: 1564617600, nanos: 0 });
    assert_eq!(activity.net_amount, Num::from(1));
    assert_eq!(activity.symbol, Some("T".to_string()));
    assert_eq!(activity.quantity, Some(Num::from(2)));
}

/// The accessors and conversions of an activity.
#[test]
fn activity_accessors() {
    let trade = TradeActivity {
        id: "trade-1".to_string(),
        transaction_time: Timestamp { secs: 100, nanos: 5 },
        symbol: "AAPL".to_string(),
        order_id: order::Id(7),
        side: Side::Buy,
        quantity: 1,
        cumulative_quantity: 1,
        unfilled_quantity: 0,
        price: Num::from(10),
    };
    let activity = Activity::Trade(trade.clone());
    assert_eq!(activity.id(), "trade-1");
    assert_eq!(activity.time(), Timestamp { secs: 100, nanos: 5 });
    assert_eq!(activity.clone().into_trade(), Ok(trade));
    assert_eq!(activity.clone().into_non_trade(), Err(activity));

    let other = Activity::NonTrade(non_trade().into_other(ActivityType::Fee));
    assert_eq!(other.time(), Timestamp { secs: 1564617600, nanos: 0 });
    assert!(other.clone().into_trade().is_err());
    assert!(other.into_non_trade().is_ok());
}

/// The default activity request reports everything, newest first.
#[test]
fn activity_request_default() {
    let request = ActivityReq::default();
    assert!(request.types.is_empty());
    assert_eq!(request.direction, Direction::Descending);
    assert_eq!(request.page_size, None);
}
