use apca::api::v2::asset;
use apca::api::v2::order::Amount;
use apca::api::v2::order::ChangeReqInit;
use apca::api::v2::order::Class;
use apca::api::v2::order::Delete;
use apca::api::v2::order::Get;
use apca::api::v2::order::Id;
use apca::api::v2::order::OrderReqInit;
use apca::api::v2::order::Patch;
use apca::api::v2::order::Post;
use apca::api::v2::order::Side;
use apca::api::v2::order::Status;
use apca::api::v2::order::StopLoss;
use apca::api::v2::order::StopLossSerde;
use apca::api::v2::order::TakeProfit;
use apca::api::v2::order::TimeInForce;
use apca::api::v2::order::Type;
use apca::endpoint::EndpointError;
use apca::endpoint::ErrorKind;
use apca::endpoint::Method;

use num_decimal::Num;

/// Check that we can properly negate a [`Side`] object.
#[test]
fn order_negate_side() {
    assert_eq!(!Side::Buy, Side::Sell);
    assert_eq!(!Side::Sell, Side::Buy);
}

/// Negating a side twice gives it back.
#[test]
fn order_side_double_negation() {
    for side in [Side::Buy, Side::Sell] {
        assert_eq!(!!side, side);
        assert_ne!(!side, side);
    }
}

/// Exactly the replaced, filled, canceled, expired, and rejected
/// statuses are terminal.
#[test]
fn terminal_statuses() {
    let terminal = [Status::Replaced, Status::Filled, Status::Canceled, Status::Expired, Status::Rejected];
    let others = [
        Status::New,
        Status::PartiallyFilled,
        Status::DoneForDay,
        Status::Accepted,
        Status::PendingNew,
        Status::AcceptedForBidding,
        Status::PendingCancel,
        Status::PendingReplace,
        Status::Stopped,
        Status::Suspended,
        Status::Calculated,
        Status::Held,
        Status::Unknown,
    ];
    for status in terminal {
        assert!(status.is_terminal());
    }
    for status in others {
        assert!(!status.is_terminal());
    }
}

/// The defaults of the order enums.
#[test]
fn order_defaults() {
    assert_eq!(Class::default(), Class::Simple);
    assert_eq!(Type::default(), Type::Market);
    assert_eq!(TimeInForce::default(), TimeInForce::Day);
}

/// An order request takes the symbol as a plain symbol and the rest from
/// the initializer.
#[test]
fn init_order_request() {
    let init = OrderReqInit {
        type_: Type::Limit,
        limit_price: Some(Num::from(100)),
        extended_hours: true,
        client_order_id: Some("abc".to_string()),
        ..Default::default()
    };
    let request = init.init("AAPL".to_string(), Side::Buy, Amount::quantity(Num::from(5)));
    assert_eq!(request.symbol, asset::Symbol::Sym("AAPL".to_string()));
    assert_eq!(request.side, Side::Buy);
    assert_eq!(request.amount, Amount::Quantity { quantity: Num::from(5) });
    assert_eq!(request.class, Class::Simple);
    assert_eq!(request.type_, Type::Limit);
    assert_eq!(request.time_in_force, TimeInForce::Day);
    assert_eq!(request.limit_price, Some(Num::from(100)));
    assert_eq!(request.stop_price, None);
    assert!(request.extended_hours);
    assert_eq!(request.client_order_id, Some("abc".to_string()));
    assert_eq!(Amount::notional(Num::from(7)), Amount::Notional { notional: Num::from(7) });
}

/// A change request takes everything from the initializer.
#[test]
fn init_change_request() {
    let init = ChangeReqInit {
        quantity: Some(Num::from(3)),
        time_in_force: Some(TimeInForce::UntilCanceled),
        ..Default::default()
    };
    let request = init.init();
    assert_eq!(request.quantity, Some(Num::from(3)));
    assert_eq!(request.time_in_force, Some(TimeInForce::UntilCanceled));
    assert_eq!(request.limit_price, None);
    assert_eq!(request.trail, None);
    assert_eq!(request.client_order_id, None);
}

/// Stop loss and take profit parts go to their wire fields and back.
#[test]
fn stop_loss_wire_fields() {
    let stop = StopLoss::from(StopLossSerde { stop_price: Num::from(42), limit_price: None });
    assert_eq!(stop, StopLoss::Stop(Num::from(42)));
    let stop_limit = StopLoss::from(StopLossSerde {
        stop_price: Num::from(13),
        limit_price: Some(Num::from(96)),
    });
    assert_eq!(stop_limit, StopLoss::StopLimit(Num::from(13), Num::from(96)));
    assert_eq!(
        StopLossSerde::from(stop_limit.clone()),
        StopLossSerde { stop_price: Num::from(13), limit_price: Some(Num::from(96)) }
    );
    assert_eq!(
        StopLossSerde::from(stop.clone()),
        StopLossSerde { stop_price: Num::from(42), limit_price: None }
    );
    assert_eq!(StopLoss::from(StopLossSerde::from(stop_limit.clone())), stop_limit);
    assert_eq!(StopLoss::from(StopLossSerde::from(stop.clone())), stop);
    let take_profit = TakeProfit::from_limit_price(Num::from(11));
    assert_eq!(take_profit, TakeProfit::Limit(Num::from(11)));
    assert_eq!(take_profit.into_limit_price(), Num::from(11));
}

/// The order endpoints' paths carry the order ID in its simple form.
#[test]
fn order_endpoint_paths() {
    let id = Id(uuid::Uuid::parse_str("904837e3-3b76-47ec-b432-046db621571b").unwrap().as_u128());
    assert_eq!(Get::path(&id), "/v2/orders/904837e33b7647ecb432046db621571b");
    assert_eq!(Delete::path(&id), "/v2/orders/904837e33b7647ecb432046db621571b");
    let change = ChangeReqInit::default().init();
    assert_eq!(Patch::path(&(id, change)), "/v2/orders/904837e33b7647ecb432046db621571b");
    assert_eq!(Get::method(), Method::Get);
    assert_eq!(Post::method(), Method::Post);
    assert_eq!(Patch::method(), Method::Patch);
    assert_eq!(Delete::method(), Method::Delete);
}

/// The order endpoints' status tables.
#[test]
fn order_endpoint_statuses() {
    assert!(matches!(Post::evaluate(200, Err(Vec::new())), Ok(())));
    assert!(matches!(
        Post::evaluate(403, Err(Vec::new())),
        Err(EndpointError::Listed(ErrorKind::NotPermitted, 403, _))
    ));
    assert!(matches!(
        Post::evaluate(422, Err(Vec::new())),
        Err(EndpointError::Listed(ErrorKind::InvalidInput, 422, _))
    ));
    assert!(matches!(Delete::evaluate(204, Err(Vec::new())), Ok(())));
    assert!(matches!(
        Delete::evaluate(200, Err(Vec::new())),
        Err(EndpointError::UnexpectedStatus(200, _))
    ));
    assert!(matches!(
        Delete::evaluate(422, Err(Vec::new())),
        Err(EndpointError::Listed(ErrorKind::NotCancelable, 422, _))
    ));
    assert!(matches!(
        Patch::evaluate(404, Err(Vec::new())),
        Err(EndpointError::Listed(ErrorKind::NotFound, 404, _))
    ));
}
