//! API information from the values of the environment variables, in the
//! form the requestor takes it: the base URL and the raw credentials.

use vstd::prelude::*;

use crate::api_info::invalid_text;
use crate::api_info::missing_text;
use crate::api_info::parse_url;
use crate::api_info::spec_url_parse;
use crate::api_info::EnvValue;
use crate::api_info::API_BASE_URL;
use crate::api_info::ENV_API_BASE_URL;
use crate::api_info::ENV_KEY_ID;
use crate::api_info::ENV_SECRET;
use crate::error::Error;
use crate::text::append_str;

verus! {

fn env_error(var: &str, suffix: &str) -> (r: Error)
    ensures
        r matches Error::Str(m) && m@ == var@ + suffix@,
{
    let mut m = String::new();
    append_str(&mut m, var);
    append_str(&mut m, suffix);
    Error::Str(m)
}

/// The base URL, key ID, and secret, from the values of the variables
/// `APCA_API_BASE_URL`, `APCA_API_KEY_ID`, and `APCA_API_SECRET_KEY`
/// (the credentials as raw bytes, `None` where the variable is not set).
///
/// The base URL defaults to the paper trading one and must be valid
/// Unicode and a URL; key ID and secret are required.
pub fn api_info(
    api_base_url: EnvValue,
    key_id: Option<Vec<u8>>,
    secret: Option<Vec<u8>>,
) -> (r: Result<(String, Vec<u8>, Vec<u8>), Error>)
    ensures
        api_base_url is Invalid ==> (r matches Err(Error::Str(m)) && m@ == invalid_text(
            ENV_API_BASE_URL@,
        )),
        ({
            let base_text = match api_base_url {
                EnvValue::Value(s) => s@,
                _ => API_BASE_URL@,
            };
            !(api_base_url is Invalid) ==> (match spec_url_parse(base_text) {
                None => r matches Err(Error::Url(_)),
                Some(base) => match (key_id, secret) {
                    (None, _) => r matches Err(Error::Str(m)) && m@ == missing_text(ENV_KEY_ID@),
                    (Some(_), None) => r matches Err(Error::Str(m)) && m@ == missing_text(
                        ENV_SECRET@,
                    ),
                    (Some(k), Some(s)) => r matches Ok((u, k2, s2)) && u@ == base && k2@ == k@
                        && s2@ == s@,
                },
            })
        }),
{
    let base_text = match api_base_url {
        EnvValue::Unset => String::from_str(API_BASE_URL),
        EnvValue::Invalid => {
            return Err(env_error(ENV_API_BASE_URL, " environment variable is not a valid string"))
        },
        EnvValue::Value(s) => s,
    };
    let base = match parse_url(base_text.as_str()) {
        Ok(u) => u,
        Err(e) => return Err(Error::Url(e)),
    };
    let key_id = match key_id {
        Some(k) => k,
        None => return Err(env_error(ENV_KEY_ID, " environment variable not found")),
    };
    let secret = match secret {
        Some(s) => s,
        None => return Err(env_error(ENV_SECRET, " environment variable not found")),
    };
    Ok((base, key_id, secret))
}

} // verus!
