//! The URL of the websocket connection of an event stream.

use vstd::prelude::*;

use crate::api_info::scheme_error_text;
use crate::api_info::spec_url_set_path;
use crate::api_info::spec_url_set_scheme;
use crate::api_info::url_with_path;
use crate::api_info::url_with_scheme;
use crate::error::Error;
use crate::text::append_str;
use crate::text::str_eq;

verus! {

/// What `url::Url::scheme` gives for the URL that a text denotes, if it
/// is one.
pub uninterp spec fn spec_url_scheme(url: Seq<char>) -> Option<Seq<char>>;

/// The scheme of the URL that `url` denotes, with `url::Url::scheme`;
/// `None` where the text is no URL (the text is read back as a URL with
/// `url::Url::parse` first). The contract names the result by the text
/// and says nothing more.
#[verifier::external_body]
fn url_scheme(url: &str) -> (r: Option<String>)
    ensures
        match r {
            Some(s) => spec_url_scheme(url@) == Some(s@),
            None => spec_url_scheme(url@) is None,
        },
{
    url::Url::parse(url).ok().map(|u| String::from(u.scheme()))
}

/// Whether a scheme is one of the websocket schemes.
pub open spec fn is_websocket_scheme(scheme: Seq<char>) -> bool {
    scheme == "ws"@ || scheme == "wss"@
}

/// The URL of the websocket stream behind `url`: with the `wss` scheme
/// unless it already has a websocket scheme, and with the path `stream`.
pub open spec fn websocket_url(url: Seq<char>) -> Option<Seq<char>> {
    match spec_url_scheme(url) {
        Some(s) if is_websocket_scheme(s) => spec_url_set_path(url, "stream"@),
        _ => match spec_url_set_scheme(url, "wss"@) {
            Some(u) => spec_url_set_path(u, "stream"@),
            None => None,
        },
    }
}

/// A URL with the scheme `ws` or `wss` keeps it and only gets the path
/// `stream`; any other URL gets the scheme `wss` and then the path
/// `stream`.
pub proof fn lemma_websocket_url(url: Seq<char>)
    ensures
        spec_url_scheme(url) == Some("ws"@) || spec_url_scheme(url) == Some("wss"@)
            ==> websocket_url(url) == spec_url_set_path(url, "stream"@),
        !(spec_url_scheme(url) == Some("ws"@) || spec_url_scheme(url) == Some("wss"@))
            ==> websocket_url(url) == (match spec_url_set_scheme(url, "wss"@) {
            Some(u) => spec_url_set_path(u, "stream"@),
            None => None,
        }),
{
}

/// The URL to connect to for the event stream behind `url`: a URL
/// without a websocket scheme gets the `wss` one, and the path becomes
/// `stream`.
pub fn connect_url(url: &str) -> (r: Result<String, Error>)
    ensures
        match websocket_url(url@) {
            Some(u) => r matches Ok(s) && s@ == u,
            None => r matches Err(Error::Str(m)) && m@ == scheme_error_text(url@),
        },
{
    proof {
        reveal_strlit("ws");
        reveal_strlit("wss");
    }
    let keep = match url_scheme(url) {
        Some(s) => str_eq(s.as_str(), "ws") || str_eq(s.as_str(), "wss"),
        None => false,
    };
    let base = if keep {
        Some(String::from_str(url))
    } else {
        url_with_scheme(url, "wss")
    };
    let result = match base {
        Some(b) => url_with_path(b.as_str(), "stream"),
        None => None,
    };
    match result {
        Some(u) => Ok(u),
        None => {
            let mut m = String::new();
            append_str(&mut m, "unable to change URL scheme for ");
            append_str(&mut m, url);
            append_str(&mut m, ": invalid URL?");
            assert(m@ =~= scheme_error_text(url@));
            Err(Error::Str(m))
        },
    }
}

} // verus!
