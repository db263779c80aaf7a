use apca::api::v2::asset::Symbol;
use apca::api::v2::position::Delete;
use apca::api::v2::position::Get;
use apca::api::v2::position::Side;

/// Check that we can negate a `Side` object.
#[test]
fn position_negate_side() {
    assert_eq!(!Side::Long, Side::Short);
    assert_eq!(!Side::Short, Side::Long);
}

/// The position endpoints' paths carry the symbol in its textual form.
#[test]
fn position_endpoint_paths() {
    assert_eq!(Get::path(&Symbol::Sym("SPY".to_string())), "/v2/positions/SPY");
    assert_eq!(Delete::path(&Symbol::Sym("SPY".to_string())), "/v2/positions/SPY");
}
