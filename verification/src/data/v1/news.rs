//! Definitions for the retrieval of news.

use vstd::prelude::*;

use crate::api_info::DATA_BASE_URL;
use crate::endpoint::evaluate_standard;
use crate::endpoint::standard_errors;
use crate::endpoint::evaluation;
use crate::endpoint::ApiMessage;
use crate::endpoint::EndpointError;
use crate::endpoint::ErrorKind;
use crate::endpoint::Method;
use crate::text::comma_list;
use crate::text::join_with;
use crate::text::texts;
use crate::time_util::Timestamp;

verus! {

/// Whether `c` is white space: whether it has Unicode's `White_Space`
/// property.
pub open spec fn is_white_space(c: char) -> bool {
    ||| '\u{9}' <= c <= '\u{d}'
    ||| c == ' ' || c == '\u{85}' || c == '\u{a0}' || c == '\u{1680}'
    ||| '\u{2000}' <= c <= '\u{200a}'
    ||| c == '\u{2028}' || c == '\u{2029}' || c == '\u{202f}' || c == '\u{205f}'
    ||| c == '\u{3000}'
}

/// `s` without its leading white space.
pub open spec fn trim_start(s: Seq<char>) -> Seq<char>
    decreases s.len(),
{
    if s.len() > 0 && is_white_space(s[0]) {
        trim_start(s.drop_first())
    } else {
        s
    }
}

/// `s` without its trailing white space.
pub open spec fn trim_end(s: Seq<char>) -> Seq<char>
    decreases s.len(),
{
    if s.len() > 0 && is_white_space(s.last()) {
        trim_end(s.drop_last())
    } else {
        s
    }
}

/// `s` without its leading and trailing white space.
pub open spec fn trimmed(s: Seq<char>) -> Seq<char> {
    trim_end(trim_start(s))
}

/// Whether `c` is white space (see [`is_white_space`]).
fn white_space(c: char) -> (r: bool)
    ensures
        r == is_white_space(c),
{
    ('\u{9}' <= c && c <= '\u{d}') || c == ' ' || c == '\u{85}' || c == '\u{a0}' || c
        == '\u{1680}' || ('\u{2000}' <= c && c <= '\u{200a}') || c == '\u{2028}' || c
        == '\u{2029}' || c == '\u{202f}' || c == '\u{205f}' || c == '\u{3000}'
}

/// `s` without its leading and trailing white space, as `str::trim`
/// gives it.
fn trim(s: &str) -> (r: String)
    ensures
        r@ == trimmed(s@),
{
    let cs = crate::text::chars_of(s);
    let n = cs.len();
    let mut i: usize = 0;
    assert(cs@.subrange(0, n as int) =~= cs@);
    while i < n && white_space(cs[i])
        invariant
            i <= n,
            n == cs@.len(),
            trim_start(cs@) == trim_start(cs@.subrange(i as int, n as int)),
        decreases n - i,
    {
        proof {
            let sub = cs@.subrange(i as int, n as int);
            assert(sub[0] == cs@[i as int]);
            assert(sub.drop_first() =~= cs@.subrange(i + 1, n as int));
        }
        i = i + 1;
    }
    proof {
        let sub = cs@.subrange(i as int, n as int);
        if i < n {
            assert(sub[0] == cs@[i as int]);
        }
        assert(trim_start(cs@) == sub);
    }
    let mut j: usize = n;
    while j > i && white_space(cs[j - 1])
        invariant
            i <= j <= n,
            n == cs@.len(),
            trim_end(cs@.subrange(i as int, n as int)) == trim_end(
                cs@.subrange(i as int, j as int),
            ),
        decreases j - i,
    {
        proof {
            let sub = cs@.subrange(i as int, j as int);
            assert(sub.last() == cs@[j - 1]);
            assert(sub.drop_last() =~= cs@.subrange(i as int, j - 1));
        }
        j = j - 1;
    }
    proof {
        let sub = cs@.subrange(i as int, j as int);
        if j > i {
            assert(sub.last() == cs@[j - 1]);
        }
        assert(trim_end(cs@.subrange(i as int, n as int)) == sub);
    }
    let mut out: Vec<char> = Vec::new();
    let mut k: usize = i;
    while k < j
        invariant
            i <= k <= j <= n,
            n == cs@.len(),
            out@ == cs@.subrange(i as int, k as int),
        decreases j - k,
    {
        out.push(cs[k]);
        proof {
            assert(out@ =~= cs@.subrange(i as int, k + 1));
        }
        k = k + 1;
    }
    crate::text::string_of(out.as_slice())
}

/// An optional text as news items send it: the text without surrounding
/// white space, and nothing where that is empty.
pub fn optional_text(s: &str) -> (r: Option<String>)
    ensures
        trimmed(s@).len() == 0 ==> r is None,
        trimmed(s@).len() > 0 ==> (r matches Some(t) && t@ == trimmed(s@)),
{
    let t = trim(s);
    if crate::text::chars_of(t.as_str()).len() == 0 {
        None
    } else {
        Some(t)
    }
}

/// A GET request to be made to the /v1beta1/news endpoint.
#[derive(Clone, Debug, PartialEq, Eq)]
pub struct NewsReq {
    /// The symbols for which to retrieve news.
    pub symbols: Vec<String>,
    /// The maximum number of news items to be returned for a given page.
    pub limit: Option<usize>,
    /// Filter data equal to or after this time.
    pub start: Option<Timestamp>,
    /// Filter data equal to or before this time.
    pub end: Option<Timestamp>,
    /// Pagination token to continue from.
    pub page_token: Option<String>,
}

impl Default for NewsReq {
    fn default() -> (r: Self)
        ensures
            r.symbols@ == Seq::<String>::empty(),
            r.limit is None,
            r.start is None,
            r.end is None,
            r.page_token is None,
    {
        NewsReq { symbols: Vec::new(), limit: None, start: None, end: None, page_token: None }
    }
}

impl NewsReq {
    /// The symbols as they are sent in the query: separated by commas,
    /// nothing for none.
    pub fn symbols_text(&self) -> (r: Option<String>)
        ensures
            self.symbols@.len() == 0 ==> r is None,
            self.symbols@.len() > 0 ==> (r matches Some(t) && t@ == join_with(
                texts(self.symbols@),
                ","@,
            )),
    {
        comma_list(self.symbols.as_slice())
    }
}

/// A news item as returned by the /v1beta1/news endpoint.
#[derive(Clone, Debug, PartialEq, Eq)]
pub struct NewsItem {
    /// The symbols the news item relates to.
    pub symbols: Vec<String>,
    /// The source of the news item.
    pub source: String,
    /// The time the news item was created at.
    pub created_at: Timestamp,
    /// The time the news item was updated at.
    pub updated_at: Timestamp,
    /// The headline.
    pub headline: String,
    /// A summary of the news item, if any.
    pub summary: Option<String>,
    /// A URL pointing to the news item, if any.
    pub url: Option<String>,
}

/// A page of news items.
#[derive(Debug, PartialEq, Eq)]
pub struct News {
    /// The news items.
    pub items: Vec<NewsItem>,
    /// The token to provide to a request to get the next page of news.
    pub next_page_token: Option<String>,
}

/// The representation of a GET request to the /v1beta1/news endpoint,
/// with the request in the query.
#[derive(Clone, Copy, Debug)]
pub struct Get;

impl Get {
    /// The base URL of the request: that of the Data API.
    pub fn base_url() -> (r: Option<&'static str>)
        ensures
            r matches Some(u) && u@ == DATA_BASE_URL@,
    {
        Some(DATA_BASE_URL)
    }

    /// The HTTP method of the request.
    pub fn method() -> (r: Method)
        ensures
            r == Method::Get,
    {
        Method::Get
    }

    /// The path of the request.
    pub fn path(_input: &NewsReq) -> (r: String)
        ensures
            r@ == "/v1beta1/news"@,
    {
        String::from_str("/v1beta1/news")
    }

    /// Evaluate the HTTP status of a response: 200 carries the news; the request was invalid on 422.
    pub fn evaluate(status: u16, message: ApiMessage) -> (r: Result<(), EndpointError>)
        ensures
            r == evaluation(seq![200u16], standard_errors(seq![(422u16, ErrorKind::InvalidInput)]), status, message),
    {
        let ok = [200u16];
        let errs = [(422u16, ErrorKind::InvalidInput)];
        proof {
            assert(ok@ =~= seq![200u16]);
            assert(errs@ =~= seq![(422u16, ErrorKind::InvalidInput)]);
        }
        evaluate_standard(&ok, &errs, status, message)
    }
}

} // verus!
