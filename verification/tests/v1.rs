use apca::api::v1::account;
use apca::api::v1::asset;
use apca::api::v1::order;
use apca::api::v1::position;
use apca::endpoint::EndpointError;
use apca::endpoint::ErrorKind;

/// The endpoints of the first API version list the exceeded rate limit,
/// but no failed authentication.
#[test]
fn v1_status_tables() {
    assert_eq!(account::Get::path(&()), "/v1/account");
    assert!(matches!(
        account::Get::evaluate(429, Err(Vec::new())),
        Err(EndpointError::Listed(ErrorKind::RateLimitExceeded, 429, _))
    ));
    assert!(matches!(
        account::Get::evaluate(401, Err(Vec::new())),
        Err(EndpointError::UnexpectedStatus(401, _))
    ));
    assert!(matches!(
        order::Post::evaluate(403, Err(Vec::new())),
        Err(EndpointError::Listed(ErrorKind::InsufficientFunds, 403, _))
    ));
    assert_eq!(order::Delete::path(&order::Id(255)), "/v1/orders/000000000000000000000000000000ff");
}

/// Paths of the first API version carry symbols as given.
#[test]
fn v1_paths() {
    let request = asset::AssetReq { symbol: "AAPL".to_string() };
    assert_eq!(asset::Get::path(&request), "/v1/assets/AAPL");
    let request = position::PositionReq { symbol: "SPY".to_string() };
    assert_eq!(position::Get::path(&request), "/v1/positions/SPY");
    assert_eq!(asset::Status::Inactive.as_ref(), "inactive");
    assert_eq!(asset::Class::UsEquity.as_ref(), "us_equity");
}

/// The orders of the first API version are limited in the query.
#[test]
fn v1_orders_query() {
    let request = apca::api::v1::orders::OrdersReq { limit: 50 };
    assert_eq!(apca::api::v1::orders::Get::query(&request), "limit=50");
}
