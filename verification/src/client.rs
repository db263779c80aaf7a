//! The parts of issuing a request that decide something: the URL of a
//! request and which headers are kept out of logs.

use vstd::prelude::*;

use crate::api::HDR_KEY_ID;
use crate::api::HDR_SECRET;
use crate::api_info::spec_url_set_path;
use crate::api_info::url_with_path;

verus! {

/// What `url::Url::set_query` makes of the URL that a text denotes: the
/// serialization of the changed URL.
pub uninterp spec fn spec_url_set_query(url: Seq<char>, query: Option<Seq<char>>) -> Option<
    Seq<char>,
>;

/// The text of an optional string.
pub open spec fn opt_text(s: Option<&str>) -> Option<Seq<char>> {
    match s {
        Some(t) => Some(t@),
        None => None,
    }
}

/// Set (or, with `None`, remove) the query of the URL that `url`
/// denotes with `url::Url::set_query`, giving the serialization of the
/// result; `None` where the text is no URL (the text is read back as a
/// URL with `url::Url::parse` first).
#[verifier::external_body]
fn url_with_query(url: &str, query: Option<&str>) -> (r: Option<String>)
    ensures
        match r {
            Some(u) => spec_url_set_query(url@, opt_text(query)) == Some(u@),
            None => spec_url_set_query(url@, opt_text(query)) is None,
        },
{
    let mut parsed = url::Url::parse(url).ok()?;
    parsed.set_query(query);
    Some(String::from(parsed))
}

/// The URL a request goes to: the endpoint's own base URL where it has
/// one, the trading API's otherwise, with the request's path and query.
pub open spec fn request_url_of(
    endpoint_base_url: Option<Seq<char>>,
    api_base_url: Seq<char>,
    path: Seq<char>,
    query: Option<Seq<char>>,
) -> Option<Seq<char>> {
    let base = match endpoint_base_url {
        Some(b) => b,
        None => api_base_url,
    };
    match spec_url_set_path(base, path) {
        Some(u) => spec_url_set_query(u, query),
        None => None,
    }
}

/// An endpoint's own base URL takes the place of the trading API's, and
/// nothing else changes: the path and the query of the request go into
/// the URL whichever base URL is used (the path is set first, then the
/// query, which is the request's own).
pub proof fn lemma_request_url(
    endpoint_base_url: Seq<char>,
    api_base_url: Seq<char>,
    path: Seq<char>,
    query: Option<Seq<char>>,
)
    ensures
        request_url_of(Some(endpoint_base_url), api_base_url, path, query) == request_url_of(
            None,
            endpoint_base_url,
            path,
            query,
        ),
        request_url_of(None, api_base_url, path, query) == (match spec_url_set_path(
            api_base_url,
            path,
        ) {
            Some(u) => spec_url_set_query(u, query),
            None => None,
        }),
{
}

/// The URL of a request; `None` where the base URL is no URL.
pub fn request_url(
    endpoint_base_url: Option<&str>,
    api_base_url: &str,
    path: &str,
    query: Option<&str>,
) -> (r: Option<String>)
    ensures
        match r {
            Some(u) => request_url_of(opt_text(endpoint_base_url), api_base_url@, path@, opt_text(query))
                == Some(u@),
            None => request_url_of(opt_text(endpoint_base_url), api_base_url@, path@, opt_text(query))
                is None,
        },
{
    let base = match endpoint_base_url {
        Some(b) => b,
        None => api_base_url,
    };
    match url_with_path(base, path) {
        Some(u) => url_with_query(u.as_str(), query),
        None => None,
    }
}

/// The code of the lower case form of an ASCII letter; the code of any
/// other character is kept.
pub open spec fn ascii_lower(c: char) -> int {
    if 'A' <= c <= 'Z' {
        (c as int) + 32
    } else {
        c as int
    }
}

/// Whether two names are equal when ASCII letters are compared without
/// regard to case, as HTTP header names are.
pub open spec fn same_header_name(a: Seq<char>, b: Seq<char>) -> bool {
    a.len() == b.len() && forall|i: int| 0 <= i < a.len() ==> ascii_lower(#[trigger] a[i])
        == ascii_lower(b[i])
}

fn lower(c: char) -> (r: u32)
    ensures
        r == ascii_lower(c),
{
    if 'A' <= c && c <= 'Z' {
        (c as u32) + 32
    } else {
        c as u32
    }
}

fn header_name_eq(a: &str, b: &str) -> (r: bool)
    ensures
        r == same_header_name(a@, b@),
{
    let x = crate::text::chars_of(a);
    let y = crate::text::chars_of(b);
    if x.len() != y.len() {
        return false;
    }
    let mut i: usize = 0;
    while i < x.len()
        invariant
            i <= x@.len(),
            x@ == a@,
            y@ == b@,
            x@.len() == y@.len(),
            forall|j: int| 0 <= j < i ==> ascii_lower(#[trigger] x@[j]) == ascii_lower(y@[j]),
        decreases x@.len() - i,
    {
        if lower(x[i]) != lower(y[i]) {
            return false;
        }
        i = i + 1;
    }
    true
}

/// Whether the value of the header `name` is masked when a request is
/// logged: the headers that carry the credentials are.
pub fn is_masked_header(name: &str) -> (r: bool)
    ensures
        r == (same_header_name(name@, HDR_KEY_ID@) || same_header_name(name@, HDR_SECRET@)),
{
    header_name_eq(name, HDR_KEY_ID) || header_name_eq(name, HDR_SECRET)
}

} // verus!
