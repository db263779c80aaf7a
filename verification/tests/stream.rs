use apca::data::v2::stream::check_authentication;
use apca::data::v2::stream::classify;
use apca::data::v2::stream::connect_step;
use apca::data::v2::stream::is_error;
use apca::data::v2::stream::is_normalized;
use apca::data::v2::stream::normalize;
use apca::data::v2::stream::Classification;
use apca::data::v2::stream::ConnectAction;
use apca::data::v2::stream::ConnectStage;
use apca::data::v2::stream::ControlMessage;
use apca::data::v2::stream::DataMessage;
use apca::data::v2::stream::MarketData;
use apca::data::v2::stream::Normalized;
use apca::data::v2::stream::RealtimeData;
use apca::data::v2::stream::Request;
use apca::data::v2::stream::StreamApiError;
use apca::data::v2::stream::Subscription;
use apca::data::v2::stream::Symbol;
use apca::data::v2::stream::IEX;
use apca::data::v2::stream::SIP;
use apca::error::Error;

#[test]
fn normalize_subscriptions() {
    let subscriptions = [Symbol::All];
    assert!(is_normalized(&subscriptions));

    let subscriptions = [Symbol::Symbol("MSFT".into()), Symbol::Symbol("SPY".into())];
    assert!(is_normalized(&subscriptions));

    let mut subscriptions = vec![Symbol::Symbol("SPY".into()), Symbol::Symbol("MSFT".into())];
    assert!(!is_normalized(&subscriptions));
    subscriptions = normalize(subscriptions);
    assert!(is_normalized(&subscriptions));

    let expected = [Symbol::Symbol("MSFT".into()), Symbol::Symbol("SPY".into())];
    assert_eq!(subscriptions.as_slice(), expected.as_ref());

    let mut subscriptions = vec![
        Symbol::Symbol("SPY".into()),
        Symbol::All,
        Symbol::Symbol("MSFT".into()),
    ];
    assert!(!is_normalized(&subscriptions));
    subscriptions = normalize(subscriptions);
    assert!(is_normalized(&subscriptions));

    let expected = [Symbol::All];
    assert_eq!(subscriptions.as_slice(), expected.as_ref());
}

/// Normalizing removes duplicates, and a normalized list is kept as it
/// is.
#[test]
fn normalize_dedup_and_idempotence() {
    let symbols = vec![
        Symbol::Symbol("SPY".into()),
        Symbol::Symbol("AAPL".into()),
        Symbol::Symbol("SPY".into()),
    ];
    let once = normalize(symbols);
    assert_eq!(once, vec![Symbol::Symbol("AAPL".into()), Symbol::Symbol("SPY".into())]);
    let twice = normalize(once.clone());
    assert_eq!(twice, once);
    assert!(is_normalized(&[]));
    assert!(!is_normalized(&[Symbol::All, Symbol::All]));
}

/// Strings name symbols, with `*` for all of them.
#[test]
fn symbols_from_strings() {
    assert_eq!(Symbol::from("*".to_string()), Symbol::All);
    assert_eq!(Symbol::from("AAPL".to_string()), Symbol::Symbol("AAPL".into()));
    let normalized = Normalized::from_strings(vec!["VOO".to_string(), "AAPL".to_string()]);
    assert_eq!(
        normalized.as_slice(),
        &[Symbol::Symbol("AAPL".into()), Symbol::Symbol("VOO".into())]
    );
    let all = Normalized::from_strings(vec!["VOO".to_string(), "*".to_string()]);
    assert_eq!(all.as_slice(), &[Symbol::All]);
}

/// Market data setters replace one list and keep the other.
#[test]
fn market_data_setters() {
    let mut data = MarketData::default();
    data.set_bars(Normalized::from_strings(vec!["SPY".to_string()]));
    assert_eq!(data.bars.as_slice(), &[Symbol::Symbol("SPY".into())]);
    assert!(data.quotes.as_slice().is_empty());
    data.set_quotes(Normalized::from_strings(vec!["*".to_string()]));
    assert_eq!(data.quotes.as_slice(), &[Symbol::All]);
    assert_eq!(data.bars.as_slice(), &[Symbol::Symbol("SPY".into())]);
}

/// Control messages go to the subscription, errors to the user.
#[test]
fn classify_messages() {
    assert!(matches!(
        classify(Ok(Ok(DataMessage::Success))),
        Classification::ControlMessage(ControlMessage::Success)
    ));
    let json = serde_json::from_str::<u32>("x").unwrap_err();
    let user = match classify(Ok(Err(json))) {
        Classification::UserMessage(user) => user,
        _ => panic!("unexpected classification"),
    };
    assert!(is_error(&user));
}

/// The handshake of a market data stream: connected, then
/// authenticated.
#[test]
fn market_data_handshake() {
    let (stage, action) = connect_step(
        ConnectStage::AwaitingConnected,
        "USER12345678",
        "justletmein",
        Some(Ok(ControlMessage::Success)),
    );
    assert_eq!(stage, ConnectStage::AwaitingAuthentication);
    match action {
        ConnectAction::Send(Request::Authenticate { key_id, secret }) => {
            assert_eq!(key_id, "USER12345678");
            assert_eq!(secret, "justletmein");
        },
        _ => panic!("unexpected action"),
    }
    let (stage, action) =
        connect_step(ConnectStage::AwaitingAuthentication, "k", "s", Some(Ok(ControlMessage::Success)));
    assert_eq!(stage, ConnectStage::Connected);
    assert!(matches!(action, ConnectAction::Done));

    let (stage, action) = connect_step(ConnectStage::AwaitingConnected, "k", "s", None);
    assert_eq!(stage, ConnectStage::Failed);
    match action {
        ConnectAction::Fail(Error::Str(m)) => {
            assert_eq!(m, "stream was closed before connected message was received")
        },
        _ => panic!("unexpected action"),
    }
}

/// An error reply to the authentication carries the API's message.
#[test]
fn market_data_authentication_error() {
    let error = StreamApiError { code: 402, message: "auth failed".to_string() };
    assert_eq!(error.to_string(), "auth failed (402)");
    match check_authentication(Some(Ok(ControlMessage::Error(error)))) {
        Err(Error::Str(m)) => assert_eq!(m, "failed to authenticate with server: auth failed (402)"),
        _ => panic!("unexpected outcome"),
    }
    match check_authentication(Some(Err(()))) {
        Err(Error::Str(m)) => assert_eq!(m, "failed to authenticate with server"),
        _ => panic!("unexpected outcome"),
    }
}

/// A subscription confirmation becomes the active subscriptions; an
/// error leaves them alone.
#[test]
fn subscription_responses() {
    let mut subscription = Subscription::new();
    let mut data = MarketData::default();
    data.set_bars(Normalized::from_strings(vec!["AAPL".to_string(), "VOO".to_string()]));
    match Subscription::subscribe(&data) {
        Request::Subscribe(d) => assert_eq!(d, data),
        _ => panic!("unexpected request"),
    }
    assert!(subscription
        .handle_response(Some(Ok(ControlMessage::Subscription(data.clone()))))
        .is_ok());
    assert_eq!(subscription.subscriptions(), &data);

    let error = StreamApiError { code: 400, message: "invalid syntax".to_string() };
    match subscription.handle_response(Some(Ok(ControlMessage::Error(error)))) {
        Err(Error::Str(m)) => assert_eq!(m, "failed to subscribe: invalid syntax (400)"),
        _ => panic!("unexpected outcome"),
    }
    assert_eq!(subscription.subscriptions(), &data);
    match subscription.handle_response(Some(Ok(ControlMessage::Success))) {
        Err(Error::Str(m)) => assert_eq!(m, "server responded with unexpected message"),
        _ => panic!("unexpected outcome"),
    }
}

/// The stream URL of a source.
#[test]
fn realtime_data_url() {
    assert_eq!(
        RealtimeData::<IEX>::url("wss://stream.data.alpaca.markets/").unwrap(),
        "wss://stream.data.alpaca.markets/v2/iex"
    );
    assert_eq!(
        RealtimeData::<SIP>::url("wss://stream.data.alpaca.markets").unwrap(),
        "wss://stream.data.alpaca.markets/v2/sip"
    );
}

/// A list of symbols is normalized on the way in, and data items tell
/// their kind.
#[test]
fn normalized_from_symbols_and_data_kinds() {
    let normalized = Normalized::from_symbols(vec![
        Symbol::Symbol("VOO".into()),
        Symbol::Symbol("AAPL".into()),
    ]);
    assert_eq!(
        normalized.as_slice(),
        &[Symbol::Symbol("AAPL".into()), Symbol::Symbol("VOO".into())]
    );
    let bar = apca::data::v2::stream::Bar {
        symbol: "SPY".to_string(),
        open_price: num_decimal::Num::from(1),
        high_price: num_decimal::Num::from(2),
        low_price: num_decimal::Num::from(1),
        close_price: num_decimal::Num::from(2),
        volume: 10,
        timestamp: apca::time_util::Timestamp { secs: 0, nanos: 0 },
    };
    let data = apca::data::v2::stream::Data::Bar(bar);
    assert!(data.is_bar());
    assert!(!data.is_quote());
}

/// Lists with the same symbols normalize to the same list.
#[test]
fn normalize_is_canonical() {
    let a = normalize(vec![Symbol::Symbol("SPY".into()), Symbol::Symbol("AAPL".into())]);
    let b = normalize(vec![
        Symbol::Symbol("AAPL".into()),
        Symbol::Symbol("SPY".into()),
        Symbol::Symbol("AAPL".into()),
    ]);
    assert_eq!(a, b);
}

/// A list of names is normalized by sorting it.
#[test]
fn deserialize_normalized() {
    let normalized =
        Normalized::from_strings(vec!["AAPL".to_string(), "XLK".to_string(), "SPY".to_string()]);
    let expected =
        Normalized::from_strings(vec!["AAPL".to_string(), "SPY".to_string(), "XLK".to_string()]);
    assert_eq!(normalized, expected);
    assert_eq!(
        normalized.as_slice(),
        &[
            Symbol::Symbol("AAPL".into()),
            Symbol::Symbol("SPY".into()),
            Symbol::Symbol("XLK".into())
        ]
    );
}
