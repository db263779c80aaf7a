//! Identifiers (UUIDs) and their textual forms.
//!
//! A UUID is held as the `u128` whose big-endian bytes are the UUID's
//! bytes, which is the value `uuid::Uuid::as_u128` reports.

use vstd::prelude::*;

use crate::text::push_char;

verus! {

/// The lower-case hexadecimal digit for a value below sixteen.
pub open spec fn hex_digit(d: nat) -> char {
    if d < 10 {
        crate::text::digit_char(d)
    } else if d == 10 {
        'a'
    } else if d == 11 {
        'b'
    } else if d == 12 {
        'c'
    } else if d == 13 {
        'd'
    } else if d == 14 {
        'e'
    } else {
        'f'
    }
}

/// The `n` least significant hexadecimal digits of `v`, most
/// significant first.
pub open spec fn hex_digits(v: nat, n: nat) -> Seq<char>
    decreases n,
{
    if n == 0 {
        Seq::empty()
    } else {
        hex_digits(v / 16, (n - 1) as nat).push(hex_digit(v % 16))
    }
}

/// The "simple" form of a UUID: its 32 hexadecimal digits.
pub open spec fn uuid_simple(v: u128) -> Seq<char> {
    hex_digits(v as nat, 32)
}

/// The hyphenated form of a UUID: its digits in groups of 8, 4, 4, 4
/// and 12, separated by `-`.
pub open spec fn uuid_hyphenated(v: u128) -> Seq<char> {
    let d = uuid_simple(v);
    d.subrange(0, 8) + seq!['-'] + d.subrange(8, 12) + seq!['-'] + d.subrange(12, 16) + seq!['-']
        + d.subrange(16, 20) + seq!['-'] + d.subrange(20, 32)
}

/// What `uuid::Uuid::parse_str` makes of a string, as the `u128` of the
/// parsed UUID.
pub uninterp spec fn spec_uuid_parse(s: Seq<char>) -> Option<u128>;

/// Whether a text of `n` bytes has one of the lengths that `uuid` parses:
/// 32 (simple), 36 (hyphenated), 38 (braced) or 45 (URN).
pub open spec fn uuid_length(n: int) -> bool {
    n == 32 || n == 36 || n == 38 || n == 45
}

/// Whether every character of `s` is ASCII (one byte in UTF-8).
pub open spec fn all_ascii(s: Seq<char>) -> bool {
    forall|i: int| 0 <= i < s.len() ==> #[trigger] s[i] < '\u{80}'
}

/// The value of a lower-case hexadecimal digit.
pub open spec fn hex_value_of(c: char) -> int {
    if '0' <= c <= '9' {
        c as int - '0' as int
    } else {
        c as int - 'a' as int + 10
    }
}

/// The value of a string of hexadecimal digits, most significant first.
pub open spec fn hex_value(s: Seq<char>) -> int
    decreases s.len(),
{
    if s.len() == 0 {
        0
    } else {
        hex_value(s.drop_last()) * 16 + hex_value_of(s.last())
    }
}

/// Whether `c` is a lower-case hexadecimal digit.
pub open spec fn is_lower_hex(c: char) -> bool {
    '0' <= c <= '9' || 'a' <= c <= 'f'
}

proof fn lemma_hex_digit(d: nat)
    requires
        d < 16,
    ensures
        is_lower_hex(hex_digit(d)),
        hex_value_of(hex_digit(d)) == d,
{
}

proof fn lemma_hex_digits(v: nat, n: nat)
    ensures
        hex_digits(v, n).len() == n,
        forall|i: int| 0 <= i < n ==> is_lower_hex(#[trigger] hex_digits(v, n)[i]),
        hex_value(hex_digits(v, n)) == (v as int) % vstd::arithmetic::power::pow(16, n),
    decreases n,
{
    vstd::arithmetic::power::lemma_pow_positive(16, n);
    if n == 0 {
        assert(vstd::arithmetic::power::pow(16, 0) == 1) by {
            vstd::arithmetic::power::lemma_pow0(16);
        }
    } else {
        let m = (n - 1) as nat;
        lemma_hex_digits(v / 16, m);
        lemma_hex_digit(v % 16);
        let d = hex_digits(v, n);
        assert(d.drop_last() =~= hex_digits(v / 16, m));
        vstd::arithmetic::power::lemma_pow_positive(16, m);
        vstd::arithmetic::div_mod::lemma_mod_breakdown(
            v as int,
            16,
            vstd::arithmetic::power::pow(16, m),
        );
        assert(vstd::arithmetic::power::pow(16, n) == 16 * vstd::arithmetic::power::pow(16, m)) by {
            reveal(vstd::arithmetic::power::pow);
        }
        assert(hex_value(d) == hex_value(hex_digits(v / 16, m)) * 16 + v % 16);
        assert((v / 16) as int % vstd::arithmetic::power::pow(16, m) * 16 == 16 * ((v as int / 16)
            % vstd::arithmetic::power::pow(16, m))) by (nonlinear_arith);
        assert forall|i: int| 0 <= i < n implies is_lower_hex(#[trigger] d[i]) by {
            if i < m {
                assert(d[i] == hex_digits(v / 16, m)[i]);
            }
        }
    }
}

/// The simple form of a UUID is 32 lower-case hexadecimal digits that
/// denote the UUID's value.
pub proof fn lemma_uuid_simple(v: u128)
    ensures
        uuid_simple(v).len() == 32,
        forall|i: int| 0 <= i < 32 ==> is_lower_hex(#[trigger] uuid_simple(v)[i]),
        hex_value(uuid_simple(v)) == v,
{
    lemma_hex_digits(v as nat, 32);
    assert(vstd::arithmetic::power::pow(16, 32) == 0x1_0000_0000_0000_0000_0000_0000_0000_0000)
        by {
        reveal_with_fuel(vstd::arithmetic::power::pow, 33);
    }
}

pub proof fn lemma_hex_digits_len(v: nat, n: nat)
    ensures
        hex_digits(v, n).len() == n,
    decreases n,
{
    if n > 0 {
        lemma_hex_digits_len(v / 16, (n - 1) as nat);
    }
}

fn hex_digit_char(d: u128) -> (c: char)
    requires
        d < 16,
    ensures
        c == hex_digit(d as nat),
{
    if d == 0 {
        '0'
    } else if d == 1 {
        '1'
    } else if d == 2 {
        '2'
    } else if d == 3 {
        '3'
    } else if d == 4 {
        '4'
    } else if d == 5 {
        '5'
    } else if d == 6 {
        '6'
    } else if d == 7 {
        '7'
    } else if d == 8 {
        '8'
    } else if d == 9 {
        '9'
    } else if d == 10 {
        'a'
    } else if d == 11 {
        'b'
    } else if d == 12 {
        'c'
    } else if d == 13 {
        'd'
    } else if d == 14 {
        'e'
    } else {
        'f'
    }
}

fn hex_digits_vec(v: u128, n: usize) -> (r: Vec<char>)
    ensures
        r@ == hex_digits(v as nat, n as nat),
    decreases n,
{
    if n == 0 {
        Vec::new()
    } else {
        let mut r = hex_digits_vec(v / 16, n - 1);
        r.push(hex_digit_char(v % 16));
        r
    }
}

/// Appends the simple form of a UUID to `s`.
pub fn append_simple(s: &mut String, v: u128)
    ensures
        final(s)@ == old(s)@ + uuid_simple(v),
{
    let d = hex_digits_vec(v, 32);
    crate::text::append_chars(s, d.as_slice());
}

/// Appends the characters `d[from..to]` to `s`.
fn append_range(s: &mut String, d: &[char], from: usize, to: usize)
    requires
        from <= to <= d@.len(),
    ensures
        final(s)@ == old(s)@ + d@.subrange(from as int, to as int),
{
    let mut i = from;
    while i < to
        invariant
            from <= i <= to <= d@.len(),
            s@ == old(s)@ + d@.subrange(from as int, i as int),
        decreases to - i,
    {
        push_char(s, d[i]);
        assert((old(s)@ + d@.subrange(from as int, i as int)).push(d@[i as int]) =~= old(s)@
            + d@.subrange(from as int, i + 1));
        i = i + 1;
    }
}

/// Appends the hyphenated form of a UUID to `s`.
pub fn append_hyphenated(s: &mut String, v: u128)
    ensures
        final(s)@ == old(s)@ + uuid_hyphenated(v),
{
    let d = hex_digits_vec(v, 32);
    proof {
        lemma_hex_digits_len(v as nat, 32);
    }
    let ghost start = s@;
    append_range(s, d.as_slice(), 0, 8);
    push_char(s, '-');
    append_range(s, d.as_slice(), 8, 12);
    push_char(s, '-');
    append_range(s, d.as_slice(), 12, 16);
    push_char(s, '-');
    append_range(s, d.as_slice(), 16, 20);
    push_char(s, '-');
    append_range(s, d.as_slice(), 20, 32);
    assert(s@ =~= start + uuid_hyphenated(v));
}

/// The hyphenated form of a UUID.
pub fn hyphenated_string(v: u128) -> (r: String)
    ensures
        r@ == uuid_hyphenated(v),
{
    let mut s = String::new();
    append_hyphenated(&mut s, v);
    assert(Seq::<char>::empty() + uuid_hyphenated(v) =~= uuid_hyphenated(v));
    s
}

/// Parses a UUID with `uuid::Uuid::parse_str` and reports it as a
/// `u128`.
///
/// The contract claims that the result is a function of the text alone
/// (`spec_uuid_parse`) and that the two forms this crate writes, the
/// simple and the hyphenated one, are read back as the UUID they were
/// written from, as the documentation of `parse_str` states for all
/// formats that `uuid` generates. It also claims that an ASCII text of
/// a length other than 32, 36, 38 and 45 is refused, as the parser
/// refuses every input of another length in bytes before it reads it.
/// Which other strings parse, and to what, is left unsaid.
#[verifier::external_body]
pub(crate) fn parse_uuid(s: &str) -> (r: Option<u128>)
    ensures
        r == spec_uuid_parse(s@),
        forall|v: u128| s@ == uuid_hyphenated(v) ==> r == Some(v),
        forall|v: u128| s@ == uuid_simple(v) ==> r == Some(v),
        all_ascii(s@) && !uuid_length(s@.len() as int) ==> r is None,
{
    uuid::Uuid::parse_str(s).ok().map(|u| u.as_u128())
}

} // verus!
