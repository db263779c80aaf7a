use apca::api::v2::assets::ListReqInit;
use apca::api::v2::asset::Class;
use apca::api::v2::asset::Status;
use apca::api::v2::orders::OrdersReq;
use apca::data::v1::bars as v1_bars;
use apca::data::v2::bars::BarsReqInit;
use apca::data::v2::bars::TimeFrame;
use apca::data::v2::last_quote;
use apca::data::v2::last_quote::LastQuoteReqInit;
use apca::data::v2::last_quotes::GetReqInit;
use apca::data::v2::last_trade::LastTradeRequest;
use apca::data::v2::last_trade::Trade;
use apca::data::v2::last_trade::TradeDataPoint;
use apca::data::v2::quotes::QuotesReqInit;
use apca::data::v2::Feed;
use apca::time_util::Timestamp;

use num_decimal::Num;

/// The latest trade request joins the symbols with commas.
#[test]
fn last_trade_request() {
    let request = LastTradeRequest::new(vec!["AAPL".to_string(), "MSFT".to_string(), "SPY".to_string()]);
    assert_eq!(request.symbols, "AAPL,MSFT,SPY");
    assert_eq!(request.feed, None);
    let request = request.with_feed(Feed::IEX);
    assert_eq!(request.feed, Some(Feed::IEX));
    assert_eq!(request.symbols, "AAPL,MSFT,SPY");
    assert_eq!(LastTradeRequest::new(vec![]).symbols, "");
    assert_eq!(LastTradeRequest::new(vec!["A".to_string()]).symbols, "A");
}

/// A trade takes its symbol and its data point.
#[test]
fn trade_from_point() {
    let point = TradeDataPoint { t: Timestamp { secs: 1, nanos: 2 }, p: Num::from(3), s: 4 };
    let trade = Trade::from("SPY", point);
    assert_eq!(trade.symbol, "SPY");
    assert_eq!(trade.price, Num::from(3));
    assert_eq!(trade.size, 4);
}

/// The initializers of the data requests.
#[test]
fn data_request_initializers() {
    let start = Timestamp { secs: 10, nanos: 0 };
    let end = Timestamp { secs: 20, nanos: 0 };
    let bars = BarsReqInit { limit: Some(5), ..Default::default() }.init(
        "AAPL".to_string(),
        start,
        end,
        TimeFrame::OneDay,
    );
    assert_eq!(bars.symbol, "AAPL");
    assert_eq!(bars.limit, Some(5));
    assert_eq!(bars.timeframe, TimeFrame::OneDay);
    assert_eq!(apca::data::v2::bars::Get::path(&bars), "/v2/stocks/AAPL/bars");
    assert_eq!(apca::data::v2::bars::Get::base_url(), Some("https://data.alpaca.markets"));

    let quote = LastQuoteReqInit::default().init("SPY".to_string());
    assert_eq!(quote.symbol, "SPY");
    assert_eq!(quote.feed, None);
    assert_eq!(last_quote::Get::path(&quote), "/v2/stocks/SPY/quotes/latest");

    let quotes = GetReqInit { feed: Some(Feed::SIP) }.init(vec!["MSFT".to_string()]);
    assert_eq!(quotes.symbols, vec!["MSFT".to_string()]);
    assert_eq!(quotes.feed, Some(Feed::SIP));

    let historic = QuotesReqInit::default().init("SPY".to_string(), start, end);
    assert_eq!(historic.start, start);
    assert_eq!(historic.end, end);
    assert_eq!(historic.limit, None);

    let list = ListReqInit::default().init();
    assert_eq!(list.status, Status::Active);
    assert_eq!(list.class, Class::UsEquity);

    let orders = OrdersReq::default();
    assert_eq!(orders.limit, 50);
    assert!(orders.nested);

    assert_eq!(v1_bars::TimeFrame::FifteenMinutes.as_ref(), "15Min");
    let request = v1_bars::BarReq { symbol: "SPY".to_string(), limit: 1, end: None };
    assert_eq!(v1_bars::Get::path(&(v1_bars::TimeFrame::OneDay, request)), "/v1/bars/1D");
}
