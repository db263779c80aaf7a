use apca::api::v2::asset::ParseSymbolError;
use apca::api::v2::calendar::parse_time;
use apca::api::v2::calendar::Time;
use apca::api::v2::util::parse_u64;
use apca::api::v2::util::u64_to_str;
use apca::events::stream::connect_url;
use apca::requestor::ConvertResult;

/// Unsigned integers sent as strings are read in base 10.
#[test]
fn parse_unsigned() {
    assert_eq!(parse_u64("0"), Some(0));
    assert_eq!(parse_u64("12345"), Some(12345));
    assert_eq!(parse_u64("+7"), Some(7));
    assert_eq!(parse_u64("18446744073709551615"), Some(u64::MAX));
    assert_eq!(parse_u64("18446744073709551616"), None);
    assert_eq!(parse_u64(""), None);
    assert_eq!(parse_u64("+"), None);
    assert_eq!(parse_u64("-1"), None);
    assert_eq!(parse_u64("12a"), None);
    assert_eq!(u64_to_str(4200), "4200");
    assert_eq!(parse_u64(&u64_to_str(987654321)), Some(987654321));
}

/// Opening and closing times are read in the format `%H:%M`.
#[test]
fn calendar_times() {
    assert_eq!(parse_time("09:30"), Some(Time { hour: 9, minute: 30 }));
    assert_eq!(parse_time("16:00"), Some(Time { hour: 16, minute: 0 }));
    assert_eq!(parse_time("9h30"), None);
}

/// The event stream URL gets a websocket scheme and the `stream` path.
#[test]
fn event_stream_url() {
    assert_eq!(
        connect_url("https://paper-api.alpaca.markets").unwrap(),
        "wss://paper-api.alpaca.markets/stream"
    );
    assert_eq!(connect_url("ws://localhost:8080/").unwrap(), "ws://localhost:8080/stream");
    assert!(connect_url("no url").is_err());
}

/// A conversion result hands out what it carries.
#[test]
fn convert_result_into() {
    let result = ConvertResult::<u32, ()>(Ok(5));
    assert_eq!(result.into(), Ok(5));
}

/// Lists are sent separated by commas, and empty lists not at all.
#[test]
fn comma_lists() {
    assert_eq!(apca::text::comma_list(&[]), None);
    assert_eq!(
        apca::text::comma_list(&["AAPL".to_string(), "SPY".to_string()]),
        Some("AAPL,SPY".to_string())
    );
    assert_eq!(apca::data::v1::news::optional_text("  a summary "), Some("a summary".to_string()));
    assert_eq!(apca::data::v1::news::optional_text("   "), None);
}

/// Surrounding white space of every kind is dropped, inner white space
/// kept.
#[test]
fn optional_text_unicode_white_space() {
    assert_eq!(
        apca::data::v1::news::optional_text("\u{a0}\t a\u{2003}b \u{3000}\n"),
        Some("a\u{2003}b".to_string())
    );
    assert_eq!(apca::data::v1::news::optional_text("\u{85}\u{2028}\u{202f}"), None);
}

/// The messages of symbol parsing errors.
#[test]
fn parse_symbol_error_messages() {
    assert_eq!(
        ParseSymbolError::InvalidSymbol('%').to_string(),
        "the symbol contains an invalid character ('%')"
    );
    assert_eq!(ParseSymbolError::InvalidFormat.to_string(), "the symbol is of an invalid format");
    let err = uuid::Uuid::parse_str("zz").unwrap_err();
    assert!(ParseSymbolError::InvalidId(err).to_string().starts_with("failed to parse asset ID: "));
}
