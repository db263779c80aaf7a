use apca::api_info::make_api_stream_url;
use apca::api_info::ApiInfo;
use apca::api_info::EnvValue;
use apca::error::Error;

/// Check that we can create an [`ApiInfo`] object from its constituent
/// parts.
#[test]
fn from_parts() {
    let api_base_url = "https://paper-api.alpaca.markets/";
    let key_id = "XXXXXXXXXXXXXXXXXXXX";
    let secret = "YYYYYYYYYYYYYYYYYYYYYYYYYYYYYYYYYYYYYYYY";

    let api_info = ApiInfo::from_parts(api_base_url, key_id, secret).unwrap();
    assert_eq!(api_info.api_base_url.as_str(), api_base_url);
    assert_eq!(api_info.key_id, key_id);
    assert_eq!(api_info.secret, secret);
}

/// The stream URL is inferred from the base URL, and the data URLs take
/// their defaults.
#[test]
fn from_parts_inferred_urls() {
    let api_info = ApiInfo::from_parts("https://paper-api.alpaca.markets", "k", "s").unwrap();
    assert_eq!(api_info.api_base_url, "https://paper-api.alpaca.markets/");
    assert_eq!(api_info.api_stream_url, "wss://paper-api.alpaca.markets/stream");
    assert_eq!(api_info.data_base_url, "https://data.alpaca.markets/");
    assert_eq!(api_info.data_stream_base_url, "wss://stream.data.alpaca.markets/");
}

/// A base URL that is no URL is refused with a URL error.
#[test]
fn from_parts_invalid_url() {
    assert!(matches!(ApiInfo::from_parts("not a url", "k", "s"), Err(Error::Url(_))));
}

/// A URL whose scheme cannot become `wss` is refused.
#[test]
fn stream_url_of_non_special_scheme() {
    assert_eq!(
        make_api_stream_url("https://example.com/").unwrap(),
        "wss://example.com/stream"
    );
    match make_api_stream_url("foo://example.com/") {
        Err(Error::Str(message)) => assert_eq!(
            message,
            "unable to change URL scheme for foo://example.com/: invalid URL?"
        ),
        _ => panic!("unexpected result"),
    }
}

/// The environment's values are taken with their defaults and errors.
#[test]
fn from_env_values() {
    let info = ApiInfo::from_env_values(
        EnvValue::Unset,
        EnvValue::Unset,
        EnvValue::Value("key".to_string()),
        EnvValue::Value("secret".to_string()),
    )
    .unwrap();
    assert_eq!(info.api_base_url, "https://paper-api.alpaca.markets/");
    assert_eq!(info.api_stream_url, "wss://paper-api.alpaca.markets/stream");
    assert_eq!(info.key_id, "key");
    assert_eq!(info.secret, "secret");

    let info = ApiInfo::from_env_values(
        EnvValue::Value("https://api.alpaca.markets".to_string()),
        EnvValue::Value("wss://example.com/custom".to_string()),
        EnvValue::Value("key".to_string()),
        EnvValue::Value("secret".to_string()),
    )
    .unwrap();
    assert_eq!(info.api_base_url, "https://api.alpaca.markets/");
    assert_eq!(info.api_stream_url, "wss://example.com/custom");

    let missing = ApiInfo::from_env_values(
        EnvValue::Unset,
        EnvValue::Unset,
        EnvValue::Unset,
        EnvValue::Value("secret".to_string()),
    );
    match missing {
        Err(Error::Str(m)) => assert_eq!(m, "APCA_API_KEY_ID environment variable not found"),
        _ => panic!("unexpected result"),
    }
    let invalid = ApiInfo::from_env_values(
        EnvValue::Invalid,
        EnvValue::Unset,
        EnvValue::Value("key".to_string()),
        EnvValue::Value("secret".to_string()),
    );
    match invalid {
        Err(Error::Str(m)) => {
            assert_eq!(m, "APCA_API_BASE_URL environment variable is not a valid string")
        },
        _ => panic!("unexpected result"),
    }
    let no_secret = ApiInfo::from_env_values(
        EnvValue::Unset,
        EnvValue::Unset,
        EnvValue::Value("key".to_string()),
        EnvValue::Invalid,
    );
    match no_secret {
        Err(Error::Str(m)) => {
            assert_eq!(m, "APCA_API_SECRET_KEY environment variable is not a valid string")
        },
        _ => panic!("unexpected result"),
    }
}

/// The base URL and the raw credentials from the environment's values.
#[test]
fn env_base_url_and_credentials() {
    let (url, key, secret) =
        apca::env::api_info(EnvValue::Unset, Some(b"key".to_vec()), Some(vec![0xff, 0x00])).unwrap();
    assert_eq!(url, "https://paper-api.alpaca.markets/");
    assert_eq!(key, b"key".to_vec());
    assert_eq!(secret, vec![0xff, 0x00]);
    match apca::env::api_info(EnvValue::Unset, None, Some(Vec::new())) {
        Err(Error::Str(m)) => assert_eq!(m, "APCA_API_KEY_ID environment variable not found"),
        _ => panic!("unexpected result"),
    }
    assert!(matches!(
        apca::env::api_info(EnvValue::Value("::".to_string()), Some(Vec::new()), Some(Vec::new())),
        Err(Error::Url(_))
    ));
}
