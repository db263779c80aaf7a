//! Definitions for listing orders (first API version).

use vstd::prelude::*;

use crate::text::decimal;
use crate::text::decimal_string;
use crate::api::v2::util::lemma_decimal_digits;
use crate::endpoint::evaluate_rate_limited;
use crate::endpoint::rate_limited_errors;
use crate::endpoint::evaluation;
use crate::endpoint::ApiMessage;
use crate::endpoint::EndpointError;
use crate::endpoint::ErrorKind;
use crate::endpoint::Method;

verus! {

/// The characters that form encoding leaves as they are: ASCII letters
/// and digits, `*`, `-`, `.` and `_`.
pub open spec fn form_unchanged(c: char) -> bool {
    ||| c == '*' || c == '-' || c == '.' || c == '_'
    ||| '0' <= c <= '9'
    ||| 'A' <= c <= 'Z'
    ||| 'a' <= c <= 'z'
}

/// Whether form encoding leaves every character of `s` as it is.
pub open spec fn form_plain(s: Seq<char>) -> bool {
    forall|i: int| 0 <= i < s.len() ==> form_unchanged(#[trigger] s[i])
}

/// An upper case hexadecimal digit, for `d < 16`.
pub open spec fn hex_upper(d: u8) -> char {
    seq!['0', '1', '2', '3', '4', '5', '6', '7', '8', '9', 'A', 'B', 'C', 'D', 'E', 'F'][d as int]
}

/// What form encoding writes for one byte: the byte of a character that
/// it leaves unchanged as that character, a space as `+`, any other
/// byte as `%` and two upper case hexadecimal digits.
pub open spec fn form_byte(b: u8) -> Seq<char> {
    if form_unchanged(b as char) {
        seq![b as char]
    } else if b == 32 {
        seq!['+']
    } else {
        seq!['%', hex_upper(b / 16), hex_upper(b % 16)]
    }
}

/// What form encoding writes for a sequence of bytes.
pub open spec fn form_bytes(bytes: Seq<u8>) -> Seq<char>
    decreases bytes.len(),
{
    if bytes.len() == 0 {
        Seq::empty()
    } else {
        form_byte(bytes[0]) + form_bytes(bytes.drop_first())
    }
}

/// The form encoding of a text: that of its UTF-8 bytes.
pub open spec fn form_encoded(s: Seq<char>) -> Seq<char> {
    form_bytes(vstd::utf8::encode_utf8(s))
}

/// Encode a single key and value pair with
/// `url::form_urlencoded::Serializer::append_pair`, on an empty target:
/// the encoded key, `=`, and the encoded value (no separator on an empty
/// target, no encoding override).
#[verifier::external_body]
fn form_pair(key: &str, value: &str) -> (r: String)
    ensures
        r@ == form_encoded(key@) + seq!['='] + form_encoded(value@),
{
    url::form_urlencoded::Serializer::new(String::new()).append_pair(key, value).finish()
}

/// Bytes that stand for characters form encoding leaves unchanged are
/// written as those characters.
proof fn lemma_form_bytes_plain(s: Seq<char>, bytes: Seq<u8>)
    requires
        form_plain(s),
        bytes.len() == s.len(),
        forall|i: int| 0 <= i < s.len() ==> #[trigger] bytes[i] == s[i] as u8,
    ensures
        form_bytes(bytes) == s,
    decreases s.len(),
{
    if s.len() > 0 {
        let c = s[0];
        assert(form_unchanged(c));
        assert(bytes[0] == c as u8);
        assert((c as u8) as int == c as int);
        assert(bytes[0] as char == c);
        lemma_form_bytes_plain(s.drop_first(), bytes.drop_first());
        assert(form_bytes(bytes) =~= s);
    }
}

/// A text that form encoding leaves unchanged is written as it is.
pub proof fn lemma_form_encoded_plain(s: Seq<char>)
    requires
        form_plain(s),
    ensures
        form_encoded(s) == s,
{
    assert(vstd::utf8::is_ascii_chars(s)) by {
        assert forall|i: int| 0 <= i < s.len() implies '\0' <= #[trigger] s[i] <= '\u{7f}' by {
            assert(form_unchanged(s[i]));
        }
    }
    vstd::utf8::is_ascii_chars_encode_utf8(s);
    let bytes = vstd::utf8::encode_utf8(s);
    assert forall|i: int| 0 <= i < s.len() implies #[trigger] bytes[i] == s[i] as u8 by {}
    lemma_form_bytes_plain(s, bytes);
}

/// A GET request to be made to the /v1/orders endpoint.
#[derive(Clone, Copy, Debug, PartialEq, Eq, Structural)]
pub struct OrdersReq {
    /// The maximum number of orders in response.
    pub limit: u64,
}

/// The representation of a GET request to the /v1/orders endpoint, with
/// the limit in the query.
#[derive(Clone, Copy, Debug)]
pub struct Get;

impl Get {
    /// The HTTP method of the request.
    pub fn method() -> (r: Method)
        ensures
            r == Method::Get,
    {
        Method::Get
    }

    /// The path of the request.
    pub fn path(_input: &OrdersReq) -> (r: String)
        ensures
            r@ == "/v1/orders"@,
    {
        String::from_str("/v1/orders")
    }

    /// The query of the request: the limit in base 10.
    pub fn query(input: &OrdersReq) -> (r: String)
        ensures
            r@ == "limit"@ + seq!['='] + decimal(input.limit as nat),
    {
        let limit = decimal_string(input.limit);
        proof {
            reveal_strlit("limit");
            lemma_decimal_digits(input.limit as nat);
            assert(form_plain("limit"@));
            assert(form_plain(decimal(input.limit as nat)));
            lemma_form_encoded_plain("limit"@);
            lemma_form_encoded_plain(decimal(input.limit as nat));
        }
        form_pair("limit", limit.as_str())
    }

    /// Evaluate the HTTP status of a response: 200 carries the orders.
    pub fn evaluate(status: u16, message: ApiMessage) -> (r: Result<(), EndpointError>)
        ensures
            r == evaluation(seq![200u16], rate_limited_errors(seq![]), status, message),
    {
        let ok = [200u16];
        let errs: [(u16, ErrorKind); 0] = [];
        proof {
            assert(ok@ =~= seq![200u16]);
            assert(errs@ =~= Seq::<(u16, ErrorKind)>::empty());
        }
        evaluate_rate_limited(&ok, &errs, status, message)
    }
}

} // verus!
