//! Reading and writing unsigned integers that the API sends as strings.

use vstd::prelude::*;

use crate::text::decimal_string;
use crate::text::decimal;
use crate::text::digit_char;

verus! {

/// Whether every character is a decimal digit.
pub open spec fn all_digits(s: Seq<char>) -> bool {
    forall|i: int| 0 <= i < s.len() ==> '0' <= #[trigger] s[i] <= '9'
}

/// The value of a string of decimal digits.
pub open spec fn digits_value(s: Seq<char>) -> nat
    decreases s.len(),
{
    if s.len() == 0 {
        0
    } else {
        digits_value(s.drop_last()) * 10 + ((s.last() as int) - ('0' as int)) as nat
    }
}

/// The unsigned integer a string denotes in base 10: an optional `+`,
/// then at least one digit, and a value that fits.
pub open spec fn u64_value(s: Seq<char>) -> Option<u64> {
    let t = if s.len() > 0 && s[0] == '+' {
        s.drop_first()
    } else {
        s
    };
    if t.len() > 0 && all_digits(t) && digits_value(t) <= u64::MAX {
        Some(digits_value(t) as u64)
    } else {
        None
    }
}

proof fn lemma_digits_value_monotonic(s: Seq<char>, i: int)
    requires
        all_digits(s),
        0 <= i <= s.len(),
    ensures
        digits_value(s.take(i)) <= digits_value(s),
    decreases s.len() - i,
{
    if i < s.len() {
        lemma_digits_value_monotonic(s, i + 1);
        assert(s.take(i + 1).drop_last() =~= s.take(i));
        assert(s.take(i + 1).last() == s[i]);
    } else {
        assert(s.take(i) =~= s);
    }
}

/// Parse an unsigned integer in base 10, as `u64::from_str_radix` with
/// radix 10 does.
pub fn parse_u64(s: &str) -> (r: Option<u64>)
    ensures
        r == u64_value(s@),
{
    let chars = crate::text::chars_of(s);
    let n = chars.len();
    let start: usize = if n > 0 && chars[0] == '+' {
        1
    } else {
        0
    };
    let ghost t = if s@.len() > 0 && s@[0] == '+' {
        s@.drop_first()
    } else {
        s@
    };
    assert(t =~= chars@.skip(start as int));
    if start == n {
        return None;
    }
    let mut value: u64 = 0;
    let mut i: usize = start;
    while i < n
        invariant
            start <= i <= n,
            n == chars@.len(),
            t =~= chars@.skip(start as int),
            t == (if s@.len() > 0 && s@[0] == '+' {
                s@.drop_first()
            } else {
                s@
            }),
            all_digits(t.take(i - start)),
            value == digits_value(t.take(i - start)),
        decreases n - i,
    {
        let c = chars[i];
        if !('0' <= c && c <= '9') {
            proof {
                assert(chars@[i as int] == c);
                assert(t[i - start] == chars@[i as int]);
                assert(!all_digits(t));
            }
            return None;
        }
        let d: u64 = (c as u32 - '0' as u32) as u64;
        proof {
            assert(chars@[i as int] == c);
            assert(t[i - start] == chars@[i as int]);
            assert(t.take(i - start + 1).drop_last() =~= t.take(i - start));
            assert(t.take(i - start + 1).last() == c);
            assert(digits_value(t.take(i - start + 1)) == value * 10 + d);
        }
        if value > (u64::MAX - d) / 10 {
            proof {
                assert(all_digits(t.take(i - start + 1)));
                assert(digits_value(t.take(i - start + 1)) > u64::MAX) by (nonlinear_arith)
                    requires
                        digits_value(t.take(i - start + 1)) == value * 10 + d,
                        value > (u64::MAX - d) / 10,
                        d <= 9,
                ;
                if all_digits(t) {
                    lemma_digits_value_monotonic(t, i - start + 1);
                    assert(digits_value(t) > u64::MAX);
                }
            }
            return None;
        }
        proof {
            assert(value * 10 + d <= u64::MAX) by (nonlinear_arith)
                requires
                    value <= (u64::MAX - d) / 10,
                    d <= 9,
            ;
        }
        value = value * 10 + d;
        i = i + 1;
    }
    assert(t.take(n - start) =~= t);
    Some(value)
}

/// Write an unsigned integer in base 10, as the API sends it.
pub fn u64_to_str(value: u64) -> (r: String)
    ensures
        r@ == decimal(value as nat),
{
    decimal_string(value)
}

proof fn lemma_digit_char(d: nat)
    requires
        d < 10,
    ensures
        '0' <= digit_char(d) <= '9',
        (digit_char(d) as int) - ('0' as int) == d,
{
}

/// The decimal form of a number is a non-empty string of digits that
/// denotes the number, without leading zeros.
pub proof fn lemma_decimal_digits(n: nat)
    ensures
        all_digits(decimal(n)),
        decimal(n).len() > 0,
        digits_value(decimal(n)) == n,
        n > 0 ==> decimal(n)[0] != '0',
    decreases n,
{
    if n < 10 {
        lemma_digit_char(n);
        let d = decimal(n);
        assert(d.drop_last() =~= Seq::<char>::empty());
        assert(d.last() == digit_char(n));
        assert(digits_value(d) == digits_value(d.drop_last()) * 10 + ((d.last() as int) - (
        '0' as int)) as nat);
    } else {
        lemma_decimal_digits(n / 10);
        lemma_digit_char(n % 10);
        let d = decimal(n);
        assert(d.drop_last() =~= decimal(n / 10));
        assert(d.last() == digit_char(n % 10));
        assert(digits_value(d) == digits_value(d.drop_last()) * 10 + ((d.last() as int) - (
        '0' as int)) as nat);
        assert((n / 10) * 10 + n % 10 == n);
        assert(d[0] == decimal(n / 10)[0]);
        assert forall|i: int| 0 <= i < d.len() implies '0' <= #[trigger] d[i] <= '9' by {
            if i < d.len() - 1 {
                assert(d[i] == decimal(n / 10)[i]);
            }
        }
    }
}

/// What `u64_to_str` writes, `parse_u64` reads back as the same number.
pub proof fn lemma_u64_text_round_trip(n: u64)
    ensures
        u64_value(decimal(n as nat)) == Some(n),
{
    lemma_decimal_digits(n as nat);
    let d = decimal(n as nat);
    assert(d[0] != '+') by {
        assert('0' <= d[0] <= '9');
    }
}

} // verus!
