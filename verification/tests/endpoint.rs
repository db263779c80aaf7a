use apca::endpoint::evaluate_with;
use apca::endpoint::EndpointError;
use apca::endpoint::ErrorKind;
use apca::endpoint::ErrorMessage;
use apca::error::Error;

/// An error message is written as its message and its code.
#[test]
fn error_message_text() {
    let message = ErrorMessage { code: 40010001, message: "invalid order".to_string() };
    assert_eq!(message.to_string(), "invalid order (40010001)");
}

/// The first listed entry for a status decides; success statuses come
/// first.
#[test]
fn evaluate_first_match() {
    let errs = [(404, ErrorKind::NotFound), (404, ErrorKind::NotPermitted)];
    assert!(matches!(evaluate_with(&[200, 204], &errs, 204, Err(Vec::new())), Ok(())));
    assert!(matches!(
        evaluate_with(&[200], &errs, 404, Err(Vec::new())),
        Err(EndpointError::Listed(ErrorKind::NotFound, 404, _))
    ));
    assert!(matches!(
        evaluate_with(&[404], &errs, 404, Err(Vec::new())),
        Ok(())
    ));
    assert!(matches!(
        evaluate_with(&[], &[], 200, Err(Vec::new())),
        Err(EndpointError::UnexpectedStatus(200, _))
    ));
}

/// Endpoint errors tied to a status become `HttpStatus` errors with the
/// message's text, or the raw body.
#[test]
fn endpoint_error_conversion() {
    let message = ErrorMessage { code: 7, message: "nope".to_string() };
    match Error::from_endpoint(EndpointError::Listed(ErrorKind::NotFound, 404, Ok(message))) {
        Error::HttpStatus(status, body) => {
            assert_eq!(status, 404);
            assert_eq!(body, b"nope (7)".to_vec());
        },
        _ => panic!("unexpected error"),
    }
    match Error::from_endpoint(EndpointError::UnexpectedStatus(500, Err(vec![1, 2, 3]))) {
        Error::HttpStatus(status, body) => {
            assert_eq!(status, 500);
            assert_eq!(body, vec![1, 2, 3]);
        },
        _ => panic!("unexpected error"),
    }
    let json = serde_json::from_str::<u32>("x").unwrap_err();
    assert!(matches!(Error::from_endpoint(EndpointError::Conversion(json)), Error::Json(_)));
}

/// Errors are written with their status and body.
#[test]
fn error_text() {
    let error = Error::HttpStatus(404, b"not found".to_vec());
    assert_eq!(error.to_string(), "Received HTTP status: 404 Not Found: not found");
    assert_eq!(Error::Str("oops".to_string()).to_string(), "oops");
}

/// A body that is no UTF-8 still comes after the status.
#[test]
fn error_text_binary_body() {
    let error = Error::HttpStatus(500, vec![0xff, 0xfe]);
    let text = error.to_string();
    assert!(text.starts_with("Received HTTP status: 500 Internal Server Error: "));
    assert!(text.len() > "Received HTTP status: 500 Internal Server Error: ".len());
    let unknown = Error::HttpStatus(999, vec![0xc0]);
    assert!(unknown.to_string().starts_with("Received HTTP status: 999 "));
}

/// The remaining listed error kinds, and the conversion of HTTP errors.
#[test]
fn remaining_error_kinds() {
    assert!(matches!(
        apca::api::v2::account_config::Change::evaluate(400, Err(Vec::new())),
        Err(EndpointError::Listed(ErrorKind::InvalidValues, 400, _))
    ));
    let request = (
        apca::data::v1::bars::TimeFrame::OneMinute,
        apca::data::v1::bars::BarReq { symbol: "SPY".to_string(), limit: 10, end: None },
    );
    assert_eq!(apca::data::v1::bars::Get::path(&request), "/v1/bars/1Min");
    assert!(matches!(
        apca::data::v1::bars::Get::evaluate(422, Err(Vec::new())),
        Err(EndpointError::Listed(ErrorKind::InvalidArgument, 422, _))
    ));
    let http = http::Request::builder().uri("\0").body(()).unwrap_err();
    assert!(matches!(Error::from_endpoint(EndpointError::Http(http)), Error::Http(_)));
}
