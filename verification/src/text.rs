//! Character-level helpers for building and inspecting strings.

use vstd::prelude::*;

verus! {

/// The characters of `s`, in order.
pub fn chars_of(s: &str) -> (r: Vec<char>)
    ensures
        r@ == s@,
{
    let mut v: Vec<char> = Vec::new();
    for c in it: s.chars()
        invariant
            v@ == it.seq().take(it.index() as int),
            it.seq() == s@,
    {
        v.push(c);
    }
    v
}

/// Appends one character to a string (`String::push`).
#[verifier::external_body]
pub(crate) fn push_char(s: &mut String, c: char)
    ensures
        final(s)@ == old(s)@.push(c),
{
    s.push(c);
}

/// Builds a string from a sequence of characters.
pub fn string_of(chars: &[char]) -> (r: String)
    ensures
        r@ == chars@,
{
    let mut s = String::new();
    let mut i: usize = 0;
    while i < chars.len()
        invariant
            i <= chars@.len(),
            s@ == chars@.take(i as int),
        decreases chars@.len() - i,
    {
        push_char(&mut s, chars[i]);
        assert(chars@.take(i as int).push(chars@[i as int]) =~= chars@.take(i + 1));
        i = i + 1;
    }
    assert(chars@.take(i as int) =~= chars@);
    s
}

/// Appends a sequence of characters to a string.
pub fn append_chars(s: &mut String, chars: &[char])
    ensures
        final(s)@ == old(s)@ + chars@,
{
    let mut i: usize = 0;
    while i < chars.len()
        invariant
            i <= chars@.len(),
            s@ == old(s)@ + chars@.take(i as int),
        decreases chars@.len() - i,
    {
        push_char(s, chars[i]);
        assert(chars@.take(i as int).push(chars@[i as int]) =~= chars@.take(i + 1));
        assert((old(s)@ + chars@.take(i as int)).push(chars@[i as int]) =~= old(s)@ + chars@.take(i
            + 1));
        i = i + 1;
    }
    assert(chars@.take(i as int) =~= chars@);
}

/// Appends a string slice to a string.
pub fn append_str(s: &mut String, t: &str)
    ensures
        final(s)@ == old(s)@ + t@,
{
    let cs = chars_of(t);
    append_chars(s, cs.as_slice());
}

/// Whether two character sequences are equal.
pub fn chars_eq(a: &[char], b: &[char]) -> (r: bool)
    ensures
        r == (a@ == b@),
{
    if a.len() != b.len() {
        return false;
    }
    let mut i: usize = 0;
    while i < a.len()
        invariant
            a@.len() == b@.len(),
            i <= a@.len(),
            forall|j: int| 0 <= j < i ==> a@[j] == b@[j],
        decreases a@.len() - i,
    {
        if a[i] != b[i] {
            return false;
        }
        i = i + 1;
    }
    assert(a@ =~= b@);
    true
}

/// Whether two string slices hold the same characters.
pub fn str_eq(a: &str, b: &str) -> (r: bool)
    ensures
        r == (a@ == b@),
{
    let x = chars_of(a);
    let y = chars_of(b);
    chars_eq(x.as_slice(), y.as_slice())
}

/// The decimal digit character for `d` (which is below ten).
pub open spec fn digit_char(d: nat) -> char {
    if d == 0 {
        '0'
    } else if d == 1 {
        '1'
    } else if d == 2 {
        '2'
    } else if d == 3 {
        '3'
    } else if d == 4 {
        '4'
    } else if d == 5 {
        '5'
    } else if d == 6 {
        '6'
    } else if d == 7 {
        '7'
    } else if d == 8 {
        '8'
    } else {
        '9'
    }
}

/// The digits of `n` in base ten, most significant first, without
/// leading zeros (zero itself is written as a single `0`).
pub open spec fn decimal(n: nat) -> Seq<char>
    decreases n,
{
    if n < 10 {
        seq![digit_char(n)]
    } else {
        decimal(n / 10).push(digit_char(n % 10))
    }
}

fn digit_to_char(d: u64) -> (c: char)
    requires
        d < 10,
    ensures
        c == digit_char(d as nat),
{
    if d == 0 {
        '0'
    } else if d == 1 {
        '1'
    } else if d == 2 {
        '2'
    } else if d == 3 {
        '3'
    } else if d == 4 {
        '4'
    } else if d == 5 {
        '5'
    } else if d == 6 {
        '6'
    } else if d == 7 {
        '7'
    } else if d == 8 {
        '8'
    } else {
        '9'
    }
}

/// Appends the decimal representation of `n` to `s`.
pub fn append_decimal(s: &mut String, n: u64)
    ensures
        final(s)@ == old(s)@ + decimal(n as nat),
    decreases n,
{
    if n < 10 {
        push_char(s, digit_to_char(n));
        assert(old(s)@.push(digit_char(n as nat)) =~= old(s)@ + decimal(n as nat));
    } else {
        append_decimal(s, n / 10);
        push_char(s, digit_to_char(n % 10));
        assert((old(s)@ + decimal((n / 10) as nat)).push(digit_char((n % 10) as nat)) =~= old(s)@
            + decimal(n as nat));
    }
}

/// The decimal representation of `n` (as `u64`'s `Display` writes it).
pub fn decimal_string(n: u64) -> (r: String)
    ensures
        r@ == decimal(n as nat),
{
    let mut s = String::new();
    append_decimal(&mut s, n);
    assert(Seq::<char>::empty() + decimal(n as nat) =~= decimal(n as nat));
    s
}

/// Whether `a` comes strictly before `b` in lexical order, comparing
/// characters by their code points (which is the order `str` compares
/// in).
pub open spec fn lex_lt(a: Seq<char>, b: Seq<char>) -> bool
    decreases a.len(),
{
    if a.len() == 0 {
        b.len() > 0
    } else if b.len() == 0 {
        false
    } else if a[0] != b[0] {
        (a[0] as int) < (b[0] as int)
    } else {
        lex_lt(a.drop_first(), b.drop_first())
    }
}

/// Lexical order is irreflexive and asymmetric.
pub proof fn lemma_lex_lt_asym(a: Seq<char>, b: Seq<char>)
    ensures
        !lex_lt(a, a),
        lex_lt(a, b) ==> !lex_lt(b, a),
    decreases a.len(),
{
    if a.len() > 0 {
        lemma_lex_lt_asym(a.drop_first(), a.drop_first());
        if b.len() > 0 {
            lemma_lex_lt_asym(a.drop_first(), b.drop_first());
        }
    }
}

/// Lexical order is total.
pub proof fn lemma_lex_lt_total(a: Seq<char>, b: Seq<char>)
    ensures
        a != b ==> lex_lt(a, b) || lex_lt(b, a),
    decreases a.len(),
{
    if a.len() > 0 && b.len() > 0 {
        if a[0] == b[0] {
            lemma_lex_lt_total(a.drop_first(), b.drop_first());
            if a.drop_first() =~= b.drop_first() {
                assert forall|i: int| 0 <= i < a.len() implies a[i] == b[i] by {
                    if i > 0 {
                        assert(a[i] == a.drop_first()[i - 1]);
                        assert(b[i] == b.drop_first()[i - 1]);
                    }
                }
                assert(a =~= b);
            }
        }
    } else if a.len() == 0 && b.len() == 0 {
        assert(a =~= b);
    }
}

/// Lexical order is transitive.
pub proof fn lemma_lex_lt_trans(a: Seq<char>, b: Seq<char>, c: Seq<char>)
    requires
        lex_lt(a, b),
        lex_lt(b, c),
    ensures
        lex_lt(a, c),
    decreases a.len(),
{
    if a.len() > 0 && b.len() > 0 && c.len() > 0 {
        if a[0] == b[0] && b[0] == c[0] {
            lemma_lex_lt_trans(a.drop_first(), b.drop_first(), c.drop_first());
        }
    }
}

/// A text comes before every longer text that it begins: a proper
/// prefix is smaller.
pub proof fn lemma_lex_lt_prefix(a: Seq<char>, c: Seq<char>)
    requires
        c.len() > 0,
    ensures
        lex_lt(a, a + c),
    decreases a.len(),
{
    if a.len() > 0 {
        assert((a + c).drop_first() =~= a.drop_first() + c);
        assert((a + c)[0] == a[0]);
        lemma_lex_lt_prefix(a.drop_first(), c);
    }
}

/// Between two texts with a common beginning `p`, the first character
/// in which they differ decides, by its code point.
pub proof fn lemma_lex_lt_first_difference(
    p: Seq<char>,
    x: char,
    y: char,
    a: Seq<char>,
    b: Seq<char>,
)
    requires
        (x as int) < (y as int),
    ensures
        lex_lt(p + seq![x] + a, p + seq![y] + b),
    decreases p.len(),
{
    let l = p + seq![x] + a;
    let r = p + seq![y] + b;
    if p.len() > 0 {
        assert(l[0] == p[0]);
        assert(r[0] == p[0]);
        assert(l.drop_first() =~= p.drop_first() + seq![x] + a);
        assert(r.drop_first() =~= p.drop_first() + seq![y] + b);
        lemma_lex_lt_first_difference(p.drop_first(), x, y, a, b);
    } else {
        assert(l[0] == x);
        assert(r[0] == y);
    }
}

/// Whether `a` comes strictly before `b` in lexical order.
pub fn chars_lt(a: &[char], b: &[char]) -> (r: bool)
    ensures
        r == lex_lt(a@, b@),
{
    let mut i: usize = 0;
    assert(a@.skip(0) =~= a@);
    assert(b@.skip(0) =~= b@);
    while i < a.len() && i < b.len()
        invariant
            i <= a@.len(),
            i <= b@.len(),
            lex_lt(a@, b@) == lex_lt(a@.skip(i as int), b@.skip(i as int)),
        decreases a@.len() - i,
    {
        assert(a@.skip(i as int)[0] == a@[i as int]);
        assert(b@.skip(i as int)[0] == b@[i as int]);
        if a[i] != b[i] {
            return a[i] < b[i];
        }
        assert(a@.skip(i as int).drop_first() =~= a@.skip(i + 1));
        assert(b@.skip(i as int).drop_first() =~= b@.skip(i + 1));
        i = i + 1;
    }
    i < b.len()
}

/// The texts of `parts` with `sep` between each two of them.
pub open spec fn join_with(parts: Seq<Seq<char>>, sep: Seq<char>) -> Seq<char>
    decreases parts.len(),
{
    if parts.len() == 0 {
        Seq::empty()
    } else if parts.len() == 1 {
        parts[0]
    } else {
        join_with(parts.drop_last(), sep) + sep + parts.last()
    }
}

/// Joining puts the separator between neighbouring parts and nowhere
/// else: one part is itself, and adding a part adds the separator and
/// that part.
pub proof fn lemma_join_with(parts: Seq<Seq<char>>, sep: Seq<char>, part: Seq<char>)
    ensures
        join_with(Seq::<Seq<char>>::empty(), sep) == Seq::<char>::empty(),
        join_with(seq![part], sep) == part,
        parts.len() > 0 ==> join_with(parts.push(part), sep) == join_with(parts, sep) + sep + part,
{
    assert(parts.push(part).drop_last() =~= parts);
}

/// The texts of strings.
pub open spec fn texts(parts: Seq<String>) -> Seq<Seq<char>> {
    parts.map_values(|p: String| p@)
}

/// Join strings with a separator between each two of them.
pub fn join(parts: &[String], sep: &str) -> (r: String)
    ensures
        r@ == join_with(texts(parts@), sep@),
{
    let mut s = String::new();
    let mut i: usize = 0;
    while i < parts.len()
        invariant
            i <= parts@.len(),
            s@ == join_with(texts(parts@.take(i as int)), sep@),
        decreases parts@.len() - i,
    {
        let ghost prev = texts(parts@.take(i as int));
        if i > 0 {
            append_str(&mut s, sep);
        }
        append_str(&mut s, parts[i].as_str());
        proof {
            let next = texts(parts@.take(i + 1));
            assert(next =~= prev.push(parts@[i as int]@));
            assert(next.drop_last() =~= prev);
            if i == 0 {
                assert(s@ =~= next[0]);
            } else {
                assert(s@ =~= join_with(next, sep@));
            }
        }
        i = i + 1;
    }
    assert(parts@.take(i as int) =~= parts@);
    s
}

/// The texts of a list separated by commas, or nothing for an empty
/// list (as lists are sent in queries).
pub fn comma_list(parts: &[String]) -> (r: Option<String>)
    ensures
        parts@.len() == 0 ==> r is None,
        parts@.len() > 0 ==> (r matches Some(t) && t@ == join_with(texts(parts@), ","@)),
{
    if parts.len() == 0 {
        None
    } else {
        Some(join(parts, ","))
    }
}

} // verus!
