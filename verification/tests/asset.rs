use apca::api::v2::asset::Class;
use apca::api::v2::asset::Exchange;
use apca::api::v2::asset::Get;
use apca::api::v2::asset::Id;
use apca::api::v2::asset::ParseSymbolError;
use apca::api::v2::asset::Symbol;
use apca::endpoint::EndpointError;
use apca::endpoint::ErrorKind;
use apca::endpoint::Method;

fn uuid(s: &str) -> u128 {
    uuid::Uuid::parse_str(s).unwrap().as_u128()
}

/// Verify that we can parse various symbols.
#[test]
fn parse_symbol() {
    let id = "b0b6dd9d-8b9b-48a9-ba46-b9d54906e415";
    assert_eq!(Symbol::from_str(id).unwrap(), Symbol::Id(Id(uuid(id))));

    assert_eq!(Symbol::from_str("SPY").unwrap(), Symbol::Sym("SPY".into()));

    assert_eq!(
        Symbol::from_str("SPY:NYSE").unwrap(),
        Symbol::SymExchg("SPY".into(), Exchange::Nyse),
    );

    assert_eq!(
        Symbol::from_str("AAPL:NASDAQ:us_equity").unwrap(),
        Symbol::SymExchgCls("AAPL".into(), Exchange::Nasdaq, Class::UsEquity),
    );

    assert_eq!(Symbol::from_str("AAPL:HIHI"), Err(ParseSymbolError::UnknownExchange));
    assert_eq!(Symbol::from_str("AAPL:NASDAQ:blah"), Err(ParseSymbolError::UnknownClass));
    assert_eq!(Symbol::from_str("Z%&Y"), Err(ParseSymbolError::InvalidSymbol('%')));
    assert_eq!(Symbol::from_str("A:B:C:"), Err(ParseSymbolError::InvalidFormat));
}

/// Check that we can create a `Symbol` from an `Id`.
#[test]
fn symbol_from_id() {
    let id = Id(uuid("904837e3-3b76-47ec-b432-046db621571b"));
    let symbol = Symbol::from(id);

    assert_eq!(symbol, Symbol::Id(id))
}

/// Symbols are written in the form that they are read in.
#[test]
fn symbol_round_trip() {
    let symbols = [
        Symbol::Sym("AAPL".to_string()),
        Symbol::SymExchg("AAPL".to_string(), Exchange::Nasdaq),
        Symbol::SymExchgCls("AAPL".to_string(), Exchange::Nasdaq, Class::UsEquity),
        Symbol::Id(Id(uuid("b0b6dd9d-8b9b-48a9-ba46-b9d54906e415"))),
    ];
    for symbol in symbols {
        let text = symbol.to_string();
        assert_eq!(Symbol::from_str(&text).unwrap(), symbol);
    }
    assert_eq!(
        Symbol::Id(Id(uuid("b0b6dd9d-8b9b-48a9-ba46-b9d54906e415"))).to_string(),
        "b0b6dd9d-8b9b-48a9-ba46-b9d54906e415"
    );
    assert_eq!(Symbol::SymExchg("SPY".to_string(), Exchange::Arca).to_string(), "SPY:ARCA");
}

/// Exchanges and classes are read back from their textual forms, and
/// unknown texts are refused.
#[test]
fn exchange_and_class_texts() {
    for exchange in [
        Exchange::Amex,
        Exchange::Arca,
        Exchange::Bats,
        Exchange::Nasdaq,
        Exchange::Nyse,
        Exchange::Nysearca,
    ] {
        assert_eq!(Exchange::from_str(exchange.as_ref()), Ok(exchange));
    }
    assert_eq!(Exchange::Otc.as_ref(), "OTC");
    assert_eq!(Exchange::from_str("OTC"), Err(()));
    assert_eq!(Exchange::from_str("unknown"), Err(()));
    assert_eq!(Class::from_str("us_equity"), Ok(Class::UsEquity));
    assert_eq!(Class::from_str("crypto"), Ok(Class::Crypto));
    assert_eq!(Class::from_str("unknown"), Err(()));
    assert_eq!(Class::default(), Class::UsEquity);
}

/// A symbol that holds a lower case letter is reported with it.
#[test]
fn parse_symbol_invalid_character() {
    assert_eq!(Symbol::from_str("aAPL"), Err(ParseSymbolError::InvalidSymbol('a')));
    assert!(matches!(Symbol::from_str(""), Ok(Symbol::Sym(s)) if s.is_empty()));
}

/// The asset endpoint's request and status table.
#[test]
fn asset_get_endpoint() {
    assert_eq!(Get::method(), Method::Get);
    assert_eq!(Get::path(&Symbol::Sym("AAPL".to_string())), "/v2/assets/AAPL");
    assert_eq!(
        Get::path(&Symbol::SymExchg("AAPL".to_string(), Exchange::Nasdaq)),
        "/v2/assets/AAPL:NASDAQ"
    );
    assert!(matches!(Get::evaluate(200, Err(Vec::new())), Ok(())));
    assert!(matches!(
        Get::evaluate(404, Err(b"nope".to_vec())),
        Err(EndpointError::Listed(ErrorKind::NotFound, 404, Err(body))) if body == b"nope"
    ));
    assert!(matches!(
        Get::evaluate(401, Err(Vec::new())),
        Err(EndpointError::Listed(ErrorKind::AuthenticationFailed, 401, _))
    ));
    assert!(matches!(
        Get::evaluate(429, Err(Vec::new())),
        Err(EndpointError::Listed(ErrorKind::RateLimitExceeded, 429, _))
    ));
    assert!(matches!(
        Get::evaluate(500, Err(Vec::new())),
        Err(EndpointError::UnexpectedStatus(500, _))
    ));
}
