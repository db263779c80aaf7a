use apca::client::is_masked_header;
use apca::client::request_url;

/// A request goes to the endpoint's base URL where it has one, with the
/// path and query set.
#[test]
fn request_urls() {
    assert_eq!(
        request_url(None, "https://paper-api.alpaca.markets/", "/v2/orders", Some("status=open")).unwrap(),
        "https://paper-api.alpaca.markets/v2/orders?status=open"
    );
    assert_eq!(
        request_url(
            Some("https://data.alpaca.markets"),
            "https://paper-api.alpaca.markets/",
            "/v2/stocks/SPY/bars",
            None
        )
        .unwrap(),
        "https://data.alpaca.markets/v2/stocks/SPY/bars"
    );
    assert_eq!(request_url(None, "not a url", "/v2/orders", None), None);
}

/// The credential headers are masked, in any case.
#[test]
fn masked_headers() {
    assert!(is_masked_header("APCA-API-KEY-ID"));
    assert!(is_masked_header("apca-api-secret-key"));
    assert!(!is_masked_header("accept"));
    assert!(!is_masked_header("apca-api-key"));
}
