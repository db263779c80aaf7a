//! The information needed to talk to the Alpaca API: URLs and
//! credentials.
//!
//! URLs are held in their serialized form, as the `url` crate writes
//! them.

use vstd::prelude::*;

use crate::error::Error;
use crate::text::append_str;

use url::ParseError as UrlParseError;

verus! {

/// The base URL of the Trading API to use by default (paper trading).
pub const API_BASE_URL: &'static str = "https://paper-api.alpaca.markets";

/// The base URL of the Data API.
pub const DATA_BASE_URL: &'static str = "https://data.alpaca.markets";

/// The base URL of the Data API's websocket streams.
pub const DATA_STREAM_BASE_URL: &'static str = "wss://stream.data.alpaca.markets";

/// The environment variable holding the Trading API base URL.
pub const ENV_API_BASE_URL: &'static str = "APCA_API_BASE_URL";

/// The environment variable holding the Trading API stream URL.
pub const ENV_API_STREAM_URL: &'static str = "APCA_API_STREAM_URL";

/// The environment variable holding the key ID.
pub const ENV_KEY_ID: &'static str = "APCA_API_KEY_ID";

/// The environment variable holding the secret.
pub const ENV_SECRET: &'static str = "APCA_API_SECRET_KEY";

/// What `url::Url::parse` makes of a string: the serialization of the
/// URL, if the string is one.
pub uninterp spec fn spec_url_parse(s: Seq<char>) -> Option<Seq<char>>;

/// What `url::Url::set_scheme` makes of the URL that a text denotes: the
/// serialization of the changed URL, if the change is allowed.
pub uninterp spec fn spec_url_set_scheme(url: Seq<char>, scheme: Seq<char>) -> Option<Seq<char>>;

/// What `url::Url::set_path` makes of the URL that a text denotes: the
/// serialization of the changed URL.
pub uninterp spec fn spec_url_set_path(url: Seq<char>, path: Seq<char>) -> Option<Seq<char>>;

/// Parse a URL with `url::Url::parse`, giving its serialization.
///
/// The contract names the result by the input. Of which strings are URLs
/// it says only that the two fixed data URLs are: each is a special
/// scheme (`https`, `wss`), `://` and a host of ASCII letters and dots,
/// which the parser accepts.
#[verifier::external_body]
pub(crate) fn parse_url(s: &str) -> (r: Result<String, UrlParseError>)
    ensures
        match r {
            Ok(u) => spec_url_parse(s@) == Some(u@),
            Err(_) => spec_url_parse(s@) is None,
        },
        s@ == DATA_BASE_URL@ || s@ == DATA_STREAM_BASE_URL@ ==> r is Ok,
{
    url::Url::parse(s).map(String::from)
}

/// Change the scheme of the URL that `url` denotes with
/// `url::Url::set_scheme`, giving the serialization of the result;
/// `None` where the text is no URL or the URL refuses the change (the
/// text is read back as a URL with `url::Url::parse` first). The
/// contract names the result by the two texts and says nothing more.
#[verifier::external_body]
pub(crate) fn url_with_scheme(url: &str, scheme: &str) -> (r: Option<String>)
    ensures
        match r {
            Some(u) => spec_url_set_scheme(url@, scheme@) == Some(u@),
            None => spec_url_set_scheme(url@, scheme@) is None,
        },
{
    let mut parsed = url::Url::parse(url).ok()?;
    parsed.set_scheme(scheme).ok()?;
    Some(String::from(parsed))
}

/// Change the path of the URL that `url` denotes with
/// `url::Url::set_path`, giving the serialization of the result; `None`
/// where the text is no URL (the text is read back as a URL with
/// `url::Url::parse` first). The contract names the result by the two
/// texts and says nothing more.
#[verifier::external_body]
pub(crate) fn url_with_path(url: &str, path: &str) -> (r: Option<String>)
    ensures
        match r {
            Some(u) => spec_url_set_path(url@, path@) == Some(u@),
            None => spec_url_set_path(url@, path@) is None,
        },
{
    let mut parsed = url::Url::parse(url).ok()?;
    parsed.set_path(path);
    Some(String::from(parsed))
}

/// The message of the error reported when the scheme of `url` cannot be
/// changed.
pub open spec fn scheme_error_text(url: Seq<char>) -> Seq<char> {
    "unable to change URL scheme for "@ + url + ": invalid URL?"@
}

/// The stream URL belonging to a Trading API base URL: the base URL with
/// the `wss` scheme and the path `stream`.
pub open spec fn inferred_stream_url(base_url: Seq<char>) -> Option<Seq<char>> {
    match spec_url_set_scheme(base_url, "wss"@) {
        Some(u) => spec_url_set_path(u, "stream"@),
        None => None,
    }
}

/// The stream URL of the Trading API is its base URL with the scheme
/// `wss` and the path `stream`.
pub proof fn lemma_inferred_stream_url(base_url: Seq<char>)
    ensures
        inferred_stream_url(base_url) == (match spec_url_set_scheme(base_url, seq!['w', 's', 's']) {
            Some(u) => spec_url_set_path(u, seq!['s', 't', 'r', 'e', 'a', 'm']),
            None => None,
        }),
{
    reveal_strlit("wss");
    reveal_strlit("stream");
    assert("wss"@ =~= seq!['w', 's', 's']);
    assert("stream"@ =~= seq!['s', 't', 'r', 'e', 'a', 'm']);
}

/// Infer the stream URL of the Trading API from its base URL: the scheme
/// becomes `wss` and the path `stream`.
pub fn make_api_stream_url(base_url: &str) -> (r: Result<String, Error>)
    ensures
        match spec_url_set_scheme(base_url@, "wss"@) {
            None => r matches Err(Error::Str(m)) && m@ == scheme_error_text(base_url@),
            Some(u) => match spec_url_set_path(u, "stream"@) {
                Some(v) => r matches Ok(s) && s@ == v,
                None => r matches Err(Error::Str(m)) && m@ == scheme_error_text(base_url@),
            },
        },
{
    match url_with_scheme(base_url, "wss") {
        None => {
            let mut m = String::new();
            append_str(&mut m, "unable to change URL scheme for ");
            append_str(&mut m, base_url);
            append_str(&mut m, ": invalid URL?");
            assert(m@ =~= scheme_error_text(base_url@));
            Err(Error::Str(m))
        },
        Some(u) => match url_with_path(u.as_str(), "stream") {
            Some(v) => Ok(v),
            None => {
                let mut m = String::new();
                append_str(&mut m, "unable to change URL scheme for ");
                append_str(&mut m, base_url);
                append_str(&mut m, ": invalid URL?");
                assert(m@ =~= scheme_error_text(base_url@));
                Err(Error::Str(m))
            },
        },
    }
}

/// An object encapsulating the information used for working with the
/// Alpaca API.
#[derive(Clone, Debug, PartialEq, Eq)]
pub struct ApiInfo {
    /// The base URL for the Trading API.
    pub api_base_url: String,
    /// The websocket stream URL for the Trading API.
    pub api_stream_url: String,
    /// The base URL for data retrieval.
    pub data_base_url: String,
    /// The websocket base URL for streaming of data.
    pub data_stream_base_url: String,
    /// The key ID to use for authentication.
    pub key_id: String,
    /// The secret to use for authentication.
    pub secret: String,
}

/// The value of an environment variable as read from the environment.
#[derive(Clone, Debug, PartialEq, Eq)]
pub enum EnvValue {
    /// The variable is not set.
    Unset,
    /// The variable is set, but its value is not valid Unicode.
    Invalid,
    /// The variable is set to this value.
    Value(String),
}

/// The message of the error reported for a variable whose value is not
/// valid Unicode.
pub open spec fn invalid_text(var: Seq<char>) -> Seq<char> {
    var + " environment variable is not a valid string"@
}

/// The message of the error reported for a variable that is not set.
pub open spec fn missing_text(var: Seq<char>) -> Seq<char> {
    var + " environment variable not found"@
}

/// The messages about an environment variable begin with its name, and
/// a variable that is not valid Unicode is told apart from one that is
/// not set.
pub proof fn lemma_env_messages(var: Seq<char>)
    ensures
        var.is_prefix_of(invalid_text(var)),
        var.is_prefix_of(missing_text(var)),
        invalid_text(var) != missing_text(var),
{
    reveal_strlit(" environment variable is not a valid string");
    reveal_strlit(" environment variable not found");
    assert(invalid_text(var).subrange(0, var.len() as int) =~= var);
    assert(missing_text(var).subrange(0, var.len() as int) =~= var);
    assert(invalid_text(var).len() != missing_text(var).len());
}

fn invalid_error(var: &str) -> (r: Error)
    ensures
        r matches Error::Str(m) && m@ == invalid_text(var@),
{
    let mut m = String::new();
    append_str(&mut m, var);
    append_str(&mut m, " environment variable is not a valid string");
    Error::Str(m)
}

fn missing_error(var: &str) -> (r: Error)
    ensures
        r matches Error::Str(m) && m@ == missing_text(var@),
{
    let mut m = String::new();
    append_str(&mut m, var);
    append_str(&mut m, " environment variable not found");
    Error::Str(m)
}

/// Whether `info` holds the given texts.
pub open spec fn info_holds(
    info: ApiInfo,
    api_base_url: Seq<char>,
    api_stream_url: Seq<char>,
    key_id: Seq<char>,
    secret: Seq<char>,
) -> bool {
    &&& info.api_base_url@ == api_base_url
    &&& info.api_stream_url@ == api_stream_url
    &&& spec_url_parse(DATA_BASE_URL@) == Some(info.data_base_url@)
    &&& spec_url_parse(DATA_STREAM_BASE_URL@) == Some(info.data_stream_base_url@)
    &&& info.key_id@ == key_id
    &&& info.secret@ == secret
}

/// An API information built from texts holds them where they belong:
/// the base URL, the stream URL, the key ID and the secret each in its
/// own field, and the parsed fixed data URLs.
pub proof fn lemma_info_holds(
    info: ApiInfo,
    api_base_url: Seq<char>,
    api_stream_url: Seq<char>,
    key_id: Seq<char>,
    secret: Seq<char>,
)
    requires
        info_holds(info, api_base_url, api_stream_url, key_id, secret),
    ensures
        info.api_base_url@ == api_base_url,
        info.api_stream_url@ == api_stream_url,
        info.key_id@ == key_id,
        info.secret@ == secret,
        spec_url_parse(DATA_BASE_URL@) == Some(info.data_base_url@),
        spec_url_parse(DATA_STREAM_BASE_URL@) == Some(info.data_stream_base_url@),
{
}

/// Parse the two data URLs.
fn data_urls() -> (r: Result<(String, String), Error>)
    ensures
        r matches Ok((d, s)) && spec_url_parse(DATA_BASE_URL@) == Some(d@) && spec_url_parse(
            DATA_STREAM_BASE_URL@,
        ) == Some(s@),
{
    let data_base_url = match parse_url(DATA_BASE_URL) {
        Ok(u) => u,
        Err(e) => return Err(Error::Url(e)),
    };
    let data_stream_base_url = match parse_url(DATA_STREAM_BASE_URL) {
        Ok(u) => u,
        Err(e) => return Err(Error::Url(e)),
    };
    Ok((data_base_url, data_stream_base_url))
}

impl ApiInfo {
    /// Create an `ApiInfo` from the required data. The websocket URL is
    /// inferred from the base URL provided.
    ///
    /// # Errors
    /// - [`Error::Url`] if `api_base_url` cannot be parsed into a URL
    /// - [`Error::Str`] if the stream URL cannot be inferred from it
    pub fn from_parts(api_base_url: &str, key_id: &str, secret: &str) -> (r: Result<
        Self,
        Error,
    >)
        ensures
            spec_url_parse(api_base_url@) is None ==> (r matches Err(Error::Url(_))),
            spec_url_parse(api_base_url@) matches Some(base) ==> (match inferred_stream_url(base) {
                None => r matches Err(Error::Str(m)) && m@ == scheme_error_text(base),
                Some(stream) => r matches Ok(info) && info_holds(info, base, stream, key_id@, secret@),
            }),
    {
        let base = match parse_url(api_base_url) {
            Ok(u) => u,
            Err(e) => return Err(Error::Url(e)),
        };
        let stream = make_api_stream_url(base.as_str())?;
        let (data_base_url, data_stream_base_url) = data_urls()?;
        Ok(
            ApiInfo {
                api_base_url: base,
                api_stream_url: stream,
                data_base_url,
                data_stream_base_url,
                key_id: crate::text::string_of(crate::text::chars_of(key_id).as_slice()),
                secret: crate::text::string_of(crate::text::chars_of(secret).as_slice()),
            },
        )
    }

    /// Create an `ApiInfo` from the values of the environment variables
    /// `APCA_API_BASE_URL`, `APCA_API_STREAM_URL`, `APCA_API_KEY_ID`, and
    /// `APCA_API_SECRET_KEY`.
    ///
    /// The base URL defaults to the paper trading one; the stream URL, if
    /// not set, is inferred from the base URL. Key ID and secret are
    /// required. The data URLs always take their defaults.
    pub fn from_env_values(
        api_base_url: EnvValue,
        api_stream_url: EnvValue,
        key_id: EnvValue,
        secret: EnvValue,
    ) -> (r: Result<Self, Error>)
        ensures
            api_base_url is Invalid ==> (r matches Err(Error::Str(m)) && m@ == invalid_text(
                ENV_API_BASE_URL@,
            )),
            ({
                let base_text = match api_base_url {
                    EnvValue::Value(s) => s@,
                    _ => API_BASE_URL@,
                };
                !(api_base_url is Invalid) ==> (match spec_url_parse(base_text) {
                    None => r matches Err(Error::Url(_)),
                    Some(base) => match api_stream_url {
                        EnvValue::Invalid => r matches Err(Error::Str(m)) && m@ == invalid_text(
                            ENV_API_STREAM_URL@,
                        ),
                        EnvValue::Unset if inferred_stream_url(base) is None => r matches Err(
                            Error::Str(m),
                        ) && m@ == scheme_error_text(base),
                        _ => {
                            let stream_text = match api_stream_url {
                                EnvValue::Value(s) => s@,
                                _ => inferred_stream_url(base)->0,
                            };
                            match spec_url_parse(stream_text) {
                                None => r matches Err(Error::Url(_)),
                                Some(stream) => match (key_id, secret) {
                                    (EnvValue::Unset, _) => r matches Err(Error::Str(m)) && m@
                                        == missing_text(ENV_KEY_ID@),
                                    (EnvValue::Invalid, _) => r matches Err(Error::Str(m)) && m@
                                        == invalid_text(ENV_KEY_ID@),
                                    (EnvValue::Value(_), EnvValue::Unset) => r matches Err(
                                        Error::Str(m),
                                    ) && m@ == missing_text(ENV_SECRET@),
                                    (EnvValue::Value(_), EnvValue::Invalid) => r matches Err(
                                        Error::Str(m),
                                    ) && m@ == invalid_text(ENV_SECRET@),
                                    (EnvValue::Value(k), EnvValue::Value(s)) => r matches Ok(
                                        info,
                                    ) && info_holds(info, base, stream, k@, s@),
                                },
                            }
                        },
                    },
                })
            }),
    {
        let base_text = match api_base_url {
            EnvValue::Unset => String::from_str(API_BASE_URL),
            EnvValue::Invalid => return Err(invalid_error(ENV_API_BASE_URL)),
            EnvValue::Value(s) => s,
        };
        let base = match parse_url(base_text.as_str()) {
            Ok(u) => u,
            Err(e) => return Err(Error::Url(e)),
        };
        let stream_text = match api_stream_url {
            EnvValue::Unset => make_api_stream_url(base.as_str())?,
            EnvValue::Invalid => return Err(invalid_error(ENV_API_STREAM_URL)),
            EnvValue::Value(s) => s,
        };
        let stream = match parse_url(stream_text.as_str()) {
            Ok(u) => u,
            Err(e) => return Err(Error::Url(e)),
        };
        let key_id = match key_id {
            EnvValue::Unset => return Err(missing_error(ENV_KEY_ID)),
            EnvValue::Invalid => return Err(invalid_error(ENV_KEY_ID)),
            EnvValue::Value(k) => k,
        };
        let secret = match secret {
            EnvValue::Unset => return Err(missing_error(ENV_SECRET)),
            EnvValue::Invalid => return Err(invalid_error(ENV_SECRET)),
            EnvValue::Value(s) => s,
        };
        let (data_base_url, data_stream_base_url) = data_urls()?;
        Ok(
            ApiInfo {
                api_base_url: base,
                api_stream_url: stream,
                data_base_url,
                data_stream_base_url,
                key_id,
                secret,
            },
        )
    }
}

} // verus!
