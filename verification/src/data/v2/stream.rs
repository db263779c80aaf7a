//! Definitions for real-time streaming of market data.

use vstd::prelude::*;

use crate::api_info::spec_url_set_path;
use crate::api_info::url_with_path;
use crate::error::outcome;
use crate::error::str_error;
use crate::error::Error;
use crate::text::append_decimal;
use crate::text::append_str;
use crate::text::chars_eq;
use crate::text::decimal;
use crate::text::str_eq;
use crate::time_util::Timestamp;
use crate::text::chars_lt;
use crate::text::chars_of;
use crate::text::lemma_lex_lt_asym;
use crate::text::lemma_lex_lt_total;
use crate::text::lemma_lex_lt_trans;
use crate::text::lex_lt;

use core::marker::PhantomData;

use num_decimal::Num;
use serde_json::Error as JsonError;
use websocket_util::tungstenite::Error as WebSocketError;

verus! {

/// A symbol for which market data can be received.
#[derive(Debug, PartialEq)]
pub enum Symbol {
    /// A symbol for a specific equity.
    Symbol(String),
    /// A "wildcard" symbol, representing all available equities.
    All,
}

impl Clone for Symbol {
    fn clone(&self) -> (r: Self)
        ensures
            r == *self,
    {
        match self {
            Symbol::Symbol(s) => Symbol::Symbol(s.clone()),
            Symbol::All => Symbol::All,
        }
    }
}

/// The mathematical value of a [`Symbol`].
pub enum SymbolView {
    /// See [`Symbol::Symbol`].
    Sym(Seq<char>),
    /// See [`Symbol::All`].
    All,
}

impl View for Symbol {
    type V = SymbolView;

    open spec fn view(&self) -> SymbolView {
        match self {
            Symbol::Symbol(s) => SymbolView::Sym(s@),
            Symbol::All => SymbolView::All,
        }
    }
}

/// The views of a sequence of symbols.
pub open spec fn views(s: Seq<Symbol>) -> Seq<SymbolView> {
    s.map_values(|x: Symbol| x@)
}

/// The order of symbols: specific symbols in lexical order, all of them
/// before the wildcard.
pub open spec fn sym_le(a: SymbolView, b: SymbolView) -> bool {
    match (a, b) {
        (SymbolView::Sym(x), SymbolView::Sym(y)) => !lex_lt(y, x),
        (SymbolView::Sym(_), SymbolView::All) => true,
        (SymbolView::All, SymbolView::Sym(_)) => false,
        (SymbolView::All, SymbolView::All) => true,
    }
}

/// Whether the symbols at `i` and `i + 1` are in order.
pub open spec fn adjacent_ordered(s: Seq<SymbolView>, i: int) -> bool {
    sym_le(s[i], s[i + 1])
}

/// Whether a list of symbols is normalized: it is empty, or it is the
/// single wildcard, or it does not contain the wildcard and its symbols
/// are lexically ordered.
pub open spec fn normalized(s: Seq<SymbolView>) -> bool {
    &&& !(s.len() > 1 && s.contains(SymbolView::All))
    &&& forall|i: int| 0 <= i < s.len() - 1 ==> #[trigger] adjacent_ordered(s, i)
}

/// Specific symbols are ordered by their text, in lexical order, and the
/// wildcard comes after all of them.
pub proof fn lemma_sym_le(x: Seq<char>, y: Seq<char>)
    ensures
        sym_le(SymbolView::Sym(x), SymbolView::Sym(y)) <==> (x == y || lex_lt(x, y)),
        sym_le(SymbolView::Sym(x), SymbolView::All),
        !sym_le(SymbolView::All, SymbolView::Sym(x)),
{
    lemma_lex_lt_asym(x, y);
    lemma_lex_lt_asym(y, x);
    lemma_lex_lt_total(x, y);
}

/// The text of a specific symbol.
pub open spec fn sym_text(v: SymbolView) -> Seq<char> {
    match v {
        SymbolView::Sym(s) => s,
        SymbolView::All => Seq::empty(),
    }
}

/// Whether a list holds specific symbols only, in strictly increasing
/// lexical order.
pub open spec fn strictly_sorted(s: Seq<SymbolView>) -> bool {
    &&& forall|i: int| 0 <= i < s.len() ==> #[trigger] s[i] is Sym
    &&& forall|i: int, j: int|
        0 <= i < j < s.len() ==> lex_lt(#[trigger] sym_text(s[i]), #[trigger] sym_text(s[j]))
}

/// Whether two lists hold the same symbols.
pub open spec fn same_symbols(a: Seq<SymbolView>, b: Seq<SymbolView>) -> bool {
    forall|v: SymbolView| a.contains(v) <==> b.contains(v)
}

/// A list that holds specific symbols only, strictly sorted, is
/// determined by the symbols it holds.
pub proof fn lemma_sorted_unique(a: Seq<SymbolView>, b: Seq<SymbolView>)
    requires
        strictly_sorted(a),
        strictly_sorted(b),
        same_symbols(a, b),
    ensures
        a == b,
    decreases a.len(),
{
    if a.len() == 0 {
        if b.len() > 0 {
            assert(b.contains(b[0]));
            assert(a.contains(b[0]));
        }
        assert(a =~= b);
    } else {
        if b.len() == 0 {
            assert(a.contains(a[0]));
            assert(b.contains(a[0]));
        }
        let x = a[0];
        let y = b[0];
        assert(a.contains(x));
        assert(b.contains(x));
        assert(b.contains(y));
        assert(a.contains(y));
        let j = choose|j: int| 0 <= j < b.len() && b[j] == x;
        let i = choose|i: int| 0 <= i < a.len() && a[i] == y;
        if x != y {
            assert(i > 0 && j > 0);
            assert(lex_lt(sym_text(a[0]), sym_text(a[i])));
            assert(lex_lt(sym_text(b[0]), sym_text(b[j])));
            lemma_lex_lt_asym(sym_text(x), sym_text(y));
            assert(false);
        }
        let a2 = a.drop_first();
        let b2 = b.drop_first();
        assert forall|v: SymbolView| a2.contains(v) implies b2.contains(v) by {
            let k = choose|k: int| 0 <= k < a2.len() && a2[k] == v;
            assert(a[k + 1] == v);
            assert(a.contains(v));
            assert(b.contains(v));
            let l = choose|l: int| 0 <= l < b.len() && b[l] == v;
            if l == 0 {
                assert(lex_lt(sym_text(a[0]), sym_text(a[k + 1])));
                lemma_lex_lt_asym(sym_text(v), sym_text(v));
                assert(false);
            }
            assert(b2[l - 1] == v);
        }
        assert forall|v: SymbolView| b2.contains(v) implies a2.contains(v) by {
            let k = choose|k: int| 0 <= k < b2.len() && b2[k] == v;
            assert(b[k + 1] == v);
            assert(b.contains(v));
            assert(a.contains(v));
            let l = choose|l: int| 0 <= l < a.len() && a[l] == v;
            if l == 0 {
                assert(lex_lt(sym_text(b[0]), sym_text(b[k + 1])));
                lemma_lex_lt_asym(sym_text(v), sym_text(v));
                assert(false);
            }
            assert(a2[l - 1] == v);
        }
        assert(strictly_sorted(a2)) by {
            assert forall|p: int, q: int| 0 <= p < q < a2.len() implies lex_lt(
                #[trigger] sym_text(a2[p]),
                #[trigger] sym_text(a2[q]),
            ) by {
                assert(a2[p] == a[p + 1] && a2[q] == a[q + 1]);
            }
        }
        assert(strictly_sorted(b2)) by {
            assert forall|p: int, q: int| 0 <= p < q < b2.len() implies lex_lt(
                #[trigger] sym_text(b2[p]),
                #[trigger] sym_text(b2[q]),
            ) by {
                assert(b2[p] == b[p + 1] && b2[q] == b[q + 1]);
            }
        }
        lemma_sorted_unique(a2, b2);
        assert forall|k: int| 0 <= k < a.len() implies a[k] == b[k] by {
            if k > 0 {
                assert(a[k] == a2[k - 1]);
                assert(b[k] == b2[k - 1]);
            }
        }
        assert(a =~= b);
    }
}

/// Normalization is canonical: where two lists with the same symbols are
/// normalized by sorting (as `normalize` does with lists that are not
/// normalized and hold no wildcard), the results are the same.
pub proof fn lemma_normalize_canonical(
    s1: Seq<SymbolView>,
    s2: Seq<SymbolView>,
    r1: Seq<SymbolView>,
    r2: Seq<SymbolView>,
)
    requires
        same_symbols(s1, s2),
        strictly_sorted(r1),
        same_symbols(r1, s1),
        strictly_sorted(r2),
        same_symbols(r2, s2),
    ensures
        r1 == r2,
{
    lemma_sorted_unique(r1, r2);
}

/// A strictly sorted list is normalized.
pub proof fn lemma_strictly_sorted_normalized(s: Seq<SymbolView>)
    requires
        strictly_sorted(s),
    ensures
        normalized(s),
{
    assert(!s.contains(SymbolView::All)) by {
        if s.contains(SymbolView::All) {
            let k = choose|k: int| 0 <= k < s.len() && s[k] == SymbolView::All;
            assert(s[k] is Sym);
        }
    }
    assert forall|i: int| 0 <= i < s.len() - 1 implies #[trigger] adjacent_ordered(s, i) by {
        assert(s[i] is Sym);
        assert(s[i + 1] is Sym);
        assert(lex_lt(sym_text(s[i]), sym_text(s[i + 1])));
        lemma_lex_lt_asym(sym_text(s[i]), sym_text(s[i + 1]));
    }
}

/// Whether `a` comes before or is equal to `b`.
fn symbol_le(a: &Symbol, b: &Symbol) -> (r: bool)
    ensures
        r == sym_le(a@, b@),
{
    match (a, b) {
        (Symbol::Symbol(x), Symbol::Symbol(y)) => {
            let xs = chars_of(x.as_str());
            let ys = chars_of(y.as_str());
            !chars_lt(ys.as_slice(), xs.as_slice())
        },
        (Symbol::Symbol(_), Symbol::All) => true,
        (Symbol::All, Symbol::Symbol(_)) => false,
        (Symbol::All, Symbol::All) => true,
    }
}

/// Whether the list contains the wildcard.
fn contains_all(symbols: &[Symbol]) -> (r: bool)
    ensures
        r == views(symbols@).contains(SymbolView::All),
{
    let mut i: usize = 0;
    while i < symbols.len()
        invariant
            i <= symbols@.len(),
            forall|j: int| 0 <= j < i ==> symbols@[j]@ != SymbolView::All,
        decreases symbols@.len() - i,
    {
        if let Symbol::All = symbols[i] {
            assert(views(symbols@)[i as int] == SymbolView::All);
            return true;
        }
        i = i + 1;
    }
    assert forall|j: int| 0 <= j < views(symbols@).len() implies views(symbols@)[j]
        != SymbolView::All by {
        assert(symbols@[j]@ != SymbolView::All);
    }
    false
}

/// Check whether a list of symbols is normalized.
///
/// Such a list is normalized if:
/// - it is empty or
/// - it contains a single element `Symbol::All` or
/// - it does not contain `Symbol::All` and all symbols are lexically
///   ordered
pub fn is_normalized(symbols: &[Symbol]) -> (r: bool)
    ensures
        r == normalized(views(symbols@)),
{
    let ghost v = views(symbols@);
    if symbols.len() > 1 && contains_all(symbols) {
        return false;
    }
    if symbols.len() == 0 {
        return true;
    }
    let mut i: usize = 1;
    while i < symbols.len()
        invariant
            1 <= i <= symbols@.len(),
            v == views(symbols@),
            forall|j: int| 0 <= j < i - 1 ==> #[trigger] adjacent_ordered(v, j),
        decreases symbols@.len() - i,
    {
        if !symbol_le(&symbols[i - 1], &symbols[i]) {
            assert(!adjacent_ordered(v, i - 1));
            return false;
        }
        i = i + 1;
    }
    true
}

/// The text of a specific symbol.
fn symbol_chars(s: &Symbol) -> (r: Vec<char>)
    requires
        s@ is Sym,
    ensures
        r@ == sym_text(s@),
{
    match s {
        Symbol::Symbol(x) => chars_of(x.as_str()),
        Symbol::All => Vec::new(),
    }
}

/// Insert a specific symbol into a strictly sorted list, unless it is
/// already there.
fn insert_sorted(out: &mut Vec<Symbol>, x: Symbol)
    requires
        strictly_sorted(views(old(out)@)),
        x@ is Sym,
    ensures
        strictly_sorted(views(final(out)@)),
        forall|v: SymbolView| #[trigger]
            views(final(out)@).contains(v) <==> (views(old(out)@).contains(v) || v == x@),
{
    let xs = symbol_chars(&x);
    let ghost o = views(out@);
    let mut j: usize = 0;
    while j < out.len()
        invariant_except_break
            j <= out@.len(),
            o == views(out@),
            strictly_sorted(o),
            xs@ == sym_text(x@),
            forall|k: int| 0 <= k < j ==> lex_lt(#[trigger] sym_text(o[k]), xs@),
        ensures
            j <= out@.len(),
            o == views(out@),
            strictly_sorted(o),
            xs@ == sym_text(x@),
            forall|k: int| 0 <= k < j ==> lex_lt(#[trigger] sym_text(o[k]), xs@),
            j < out@.len() ==> !lex_lt(sym_text(o[j as int]), xs@),
        decreases out@.len() - j,
    {
        assert(o[j as int] == out@[j as int]@);
        assert(o[j as int] is Sym);
        let ys = symbol_chars(&out[j]);
        if !chars_lt(ys.as_slice(), xs.as_slice()) {
            break;
        }
        j = j + 1;
    }
    if j < out.len() {
        assert(o[j as int] == out@[j as int]@);
        assert(o[j as int] is Sym);
        let ys = symbol_chars(&out[j]);
        if chars_eq(ys.as_slice(), xs.as_slice()) {
            proof {
                assert(o[j as int] == x@);
                assert forall|v: SymbolView| #[trigger]
                    o.contains(v) <==> (o.contains(v) || v == x@) by {
                    if v == x@ {
                        assert(o[j as int] == v);
                    }
                }
            }
            return;
        }
        proof {
            lemma_lex_lt_total(sym_text(o[j as int]), xs@);
        }
    }
    let ghost jj = j as int;
    out.insert(j, x);
    proof {
        let n = views(out@);
        assert(n =~= o.insert(jj, x@));
        assert forall|i: int| 0 <= i < n.len() implies #[trigger] n[i] is Sym by {
            if i < jj {
                assert(n[i] == o[i]);
            } else if i > jj {
                assert(n[i] == o[i - 1]);
            }
        }
        assert forall|a: int, b: int| 0 <= a < b < n.len() implies lex_lt(
            #[trigger] sym_text(n[a]),
            #[trigger] sym_text(n[b]),
        ) by {
            if b < jj {
                assert(n[a] == o[a] && n[b] == o[b]);
            } else if b == jj {
                assert(n[a] == o[a]);
            } else if a < jj {
                assert(n[a] == o[a] && n[b] == o[b - 1]);
                assert(lex_lt(sym_text(o[jj]), sym_text(o[b - 1])) || jj == b - 1);
                lemma_lex_lt_trans(sym_text(o[a]), xs@, sym_text(o[jj]));
                if jj != b - 1 {
                    lemma_lex_lt_trans(sym_text(o[a]), sym_text(o[jj]), sym_text(o[b - 1]));
                }
            } else if a == jj {
                assert(n[b] == o[b - 1]);
                if jj != b - 1 {
                    lemma_lex_lt_trans(xs@, sym_text(o[jj]), sym_text(o[b - 1]));
                }
            } else {
                assert(n[a] == o[a - 1] && n[b] == o[b - 1]);
            }
        }
        assert forall|v: SymbolView| #[trigger] n.contains(v) <==> (o.contains(v) || v == x@) by {
            if n.contains(v) {
                let k = choose|k: int| 0 <= k < n.len() && n[k] == v;
                if k < jj {
                    assert(o[k] == v);
                } else if k > jj {
                    assert(o[k - 1] == v);
                }
            }
            if o.contains(v) {
                let k = choose|k: int| 0 <= k < o.len() && o[k] == v;
                if k < jj {
                    assert(n[k] == v);
                } else {
                    assert(n[k + 1] == v);
                }
            }
            if v == x@ {
                assert(n[jj] == v);
            }
        }
    }
}

/// Sort and de-duplicate a list of specific symbols.
fn sort_dedup(symbols: Vec<Symbol>) -> (r: Vec<Symbol>)
    requires
        !views(symbols@).contains(SymbolView::All),
    ensures
        strictly_sorted(views(r@)),
        same_symbols(views(r@), views(symbols@)),
{
    let ghost orig = views(symbols@);
    let mut rest = symbols;
    let mut out: Vec<Symbol> = Vec::new();
    while rest.len() > 0
        invariant
            rest@.len() <= orig.len(),
            views(rest@) == orig.subrange(0, rest@.len() as int),
            !orig.contains(SymbolView::All),
            strictly_sorted(views(out@)),
            forall|v: SymbolView| #[trigger]
                views(out@).contains(v) <==> orig.subrange(
                    rest@.len() as int,
                    orig.len() as int,
                ).contains(v),
        decreases rest@.len(),
    {
        let ghost n = rest@.len() as int;
        let ghost old_rest = rest@;
        let x = rest.pop().unwrap();
        proof {
            assert(old_rest =~= rest@.push(x));
            assert(orig[n - 1] == x@) by {
                assert(views(old_rest)[n - 1] == x@);
                assert(orig.subrange(0, n)[n - 1] == orig[n - 1]);
            }
            assert(views(rest@) =~= orig.subrange(0, rest@.len() as int)) by {
                assert(views(rest@) =~= views(old_rest).drop_last());
            }
            assert(x@ is Sym) by {
                if x@ == SymbolView::All {
                    assert(orig[n - 1] == SymbolView::All);
                }
            }
        }
        insert_sorted(&mut out, x);
        proof {
            assert forall|v: SymbolView| #[trigger]
                views(out@).contains(v) <==> orig.subrange(n - 1, orig.len() as int).contains(
                    v,
                ) by {
                let a = orig.subrange(n - 1, orig.len() as int);
                let b = orig.subrange(n, orig.len() as int);
                assert(a =~= seq![x@] + b);
                if a.contains(v) {
                    let k = choose|k: int| 0 <= k < a.len() && a[k] == v;
                    if k > 0 {
                        assert(b[k - 1] == v);
                    }
                }
                if b.contains(v) {
                    let k = choose|k: int| 0 <= k < b.len() && b[k] == v;
                    assert(a[k + 1] == v);
                }
                if v == x@ {
                    assert(a[0] == v);
                }
            }
        }
    }
    proof {
        assert(orig.subrange(0, orig.len() as int) =~= orig);
    }
    out
}

/// Normalize a list of symbols.
///
/// A normalized list is kept as it is. Otherwise a list with the
/// wildcard becomes the wildcard alone, and any other list becomes its
/// symbols in strictly increasing lexical order, each once.
pub fn normalize(symbols: Vec<Symbol>) -> (r: Vec<Symbol>)
    ensures
        normalized(views(r@)),
        normalized(views(symbols@)) ==> r@ == symbols@,
        !normalized(views(symbols@)) && views(symbols@).contains(SymbolView::All) ==> views(r@)
            == seq![SymbolView::All],
        !normalized(views(symbols@)) && !views(symbols@).contains(SymbolView::All) ==> {
            &&& strictly_sorted(views(r@))
            &&& same_symbols(views(r@), views(symbols@))
        },
{
    if is_normalized(symbols.as_slice()) {
        symbols
    } else if contains_all(symbols.as_slice()) {
        let r = vec![Symbol::All];
        proof {
            assert(views(r@) =~= seq![SymbolView::All]);
            assert(normalized(views(r@)));
        }
        r
    } else {
        let r = sort_dedup(symbols);
        proof {
            lemma_strictly_sorted_normalized(views(r@));
        }
        r
    }
}


impl From<String> for Symbol {
    /// The symbol a string names: `*` is the wildcard.
    fn from(symbol: String) -> (r: Self)
        ensures
            r@ == symbol_of(symbol@),
            r == (if symbol@ == seq!['*'] {
                Symbol::All
            } else {
                Symbol::Symbol(symbol)
            }),
    {
        proof {
            reveal_strlit("*");
            assert("*"@ =~= seq!['*']);
        }
        let is_all = str_eq(symbol.as_str(), "*");
        if is_all {
            Symbol::All
        } else {
            Symbol::Symbol(symbol)
        }
    }
}

impl vstd::std_specs::convert::FromSpecImpl<String> for Symbol {
    open spec fn obeys_from_spec() -> bool {
        true
    }

    open spec fn from_spec(v: String) -> Self {
        if v@ == seq!['*'] {
            Symbol::All
        } else {
            Symbol::Symbol(v)
        }
    }
}

/// The symbol that a string names: `*` is the wildcard.
pub open spec fn symbol_of(s: Seq<char>) -> SymbolView {
    if s == seq!['*'] {
        SymbolView::All
    } else {
        SymbolView::Sym(s)
    }
}

/// The text `*` names the wildcard; every other text names the symbol
/// it spells.
pub proof fn lemma_symbol_of(s: Seq<char>)
    ensures
        symbol_of(seq!['*']) == SymbolView::All,
        s != seq!['*'] ==> symbol_of(s) == SymbolView::Sym(s),
{
}

/// A trait representing the source from which to stream real time data;
/// only this module's types implement it.
pub trait Sealed {

}

/// A trait representing the source from which to stream real time data.
pub trait Source: Sealed {
    /// The textual representation of the source.
    spec fn name() -> Seq<char>;

    /// Return a textual representation of the source.
    fn as_str() -> (r: &'static str)
        ensures
            r@ == Self::name(),
    ;
}

/// Use the Investors Exchange (IEX) as the data source.
///
/// This source is available unconditionally, i.e., with the free and
/// unlimited plans.
///
/// It only serves as a type argument: no value of it is ever made.
#[derive(Clone, Copy, Debug)]
pub struct IEX {
    _private: (),
}

impl Sealed for IEX {

}

impl Source for IEX {
    open spec fn name() -> Seq<char> {
        "iex"@
    }

    fn as_str() -> (r: &'static str) {
        "iex"
    }
}

/// Use CTA (administered by NYSE) and UTP (administered by Nasdaq) SIPs
/// as the data source.
///
/// This source is only usable with the unlimited market data plan.
///
/// It only serves as a type argument: no value of it is ever made.
#[derive(Clone, Copy, Debug)]
pub struct SIP {
    _private: (),
}

impl Sealed for SIP {

}

impl Source for SIP {
    open spec fn name() -> Seq<char> {
        "sip"@
    }

    fn as_str() -> (r: &'static str) {
        "sip"
    }
}

/// Aggregate data for an equity.
#[derive(Clone, Debug, PartialEq)]
pub struct Bar {
    /// The bar's symbol.
    pub symbol: String,
    /// The bar's open price.
    pub open_price: Num,
    /// The bar's high price.
    pub high_price: Num,
    /// The bar's low price.
    pub low_price: Num,
    /// The bar's close price.
    pub close_price: Num,
    /// The bar's volume.
    pub volume: u64,
    /// The bar's time stamp.
    pub timestamp: Timestamp,
}

/// A quote for an equity.
#[derive(Clone, Debug, PartialEq)]
pub struct Quote {
    /// The quote's symbol.
    pub symbol: String,
    /// The bid's price.
    pub bid_price: Num,
    /// The bid's size.
    pub bid_size: u64,
    /// The ask's price.
    pub ask_price: Num,
    /// The ask's size.
    pub ask_size: u64,
    /// The quote's time stamp.
    pub timestamp: Timestamp,
}

/// An error as reported by the Alpaca Stream API.
#[derive(Clone, Debug, PartialEq, Eq)]
pub struct StreamApiError {
    /// The error code being reported.
    pub code: u64,
    /// A message providing more details about the error.
    pub message: String,
}

/// The textual form of a stream API error: the message, then the code in
/// parentheses.
pub open spec fn api_error_text(e: StreamApiError) -> Seq<char> {
    e.message@ + " ("@ + decimal(e.code as nat) + ")"@
}

/// A stream API error is written as its message, a space, its code in
/// decimal within parentheses.
pub proof fn lemma_api_error_text(e: StreamApiError)
    ensures
        api_error_text(e) == e.message@ + seq![' ', '('] + decimal(e.code as nat) + seq![')'],
{
    reveal_strlit(" (");
    reveal_strlit(")");
    assert(" ("@ =~= seq![' ', '(']);
    assert(")"@ =~= seq![')']);
}

impl StreamApiError {
    /// Format the error as `{message} ({code})`.
    pub fn to_string(&self) -> (r: String)
        ensures
            r@ == api_error_text(*self),
    {
        let mut s = String::new();
        append_error(&mut s, self);
        assert(s@ =~= api_error_text(*self));
        s
    }
}

fn append_error(s: &mut String, e: &StreamApiError)
    ensures
        final(s)@ == old(s)@ + api_error_text(*e),
{
    append_str(s, e.message.as_str());
    append_str(s, " (");
    append_decimal(s, e.code);
    append_str(s, ")");
    assert(final(s)@ =~= old(s)@ + api_error_text(*e));
}

/// The symbols of a list, kept normalized.
#[derive(Debug, PartialEq)]
pub struct Normalized(Vec<Symbol>);

impl Clone for Normalized {
    fn clone(&self) -> (r: Self)
        ensures
            r.symbols() == self.symbols(),
    {
        proof {
            use_type_invariant(self);
        }
        let v = self.0.clone();
        assert(v@ =~= self.0@);
        Normalized(v)
    }
}

impl Normalized {
    /// The list is normalized at all times.
    #[verifier::type_invariant]
    spec fn inv(self) -> bool {
        normalized(views(self.0@))
    }

    /// The symbols of the list.
    pub closed spec fn symbols(self) -> Seq<Symbol> {
        self.0@
    }

    /// The symbols of the list, as a slice.
    pub fn as_slice(&self) -> (r: &[Symbol])
        ensures
            r@ == self.symbols(),
            normalized(views(r@)),
    {
        proof {
            use_type_invariant(self);
        }
        self.0.as_slice()
    }

    /// The normalized list of the given symbols.
    pub fn from_symbols(symbols: Vec<Symbol>) -> (r: Normalized)
        ensures
            normalized(views(r.symbols())),
            normalized(views(symbols@)) ==> r.symbols() == symbols@,
            !normalized(views(symbols@)) && views(symbols@).contains(SymbolView::All) ==> views(
                r.symbols(),
            ) == seq![SymbolView::All],
            !normalized(views(symbols@)) && !views(symbols@).contains(SymbolView::All) ==> {
                &&& strictly_sorted(views(r.symbols()))
                &&& same_symbols(views(r.symbols()), views(symbols@))
            },
    {
        Normalized(normalize(symbols))
    }

    /// The normalized list of the symbols that the given strings name.
    pub fn from_strings(symbols: Vec<String>) -> (r: Normalized)
        ensures
            normalized(views(r.symbols())),
            ({
                let named = symbols@.map_values(|s: String| symbol_of(s@));
                &&& normalized(named) ==> views(r.symbols()) == named
                &&& !normalized(named) && named.contains(SymbolView::All) ==> views(r.symbols())
                    == seq![SymbolView::All]
                &&& !normalized(named) && !named.contains(SymbolView::All) ==> {
                    &&& strictly_sorted(views(r.symbols()))
                    &&& same_symbols(views(r.symbols()), named)
                }
            }),
    {
        let mut out: Vec<Symbol> = Vec::new();
        let n = symbols.len();
        let mut i: usize = 0;
        while i < n
            invariant
                n == symbols@.len(),
                i <= n,
                views(out@) == symbols@.take(i as int).map_values(|s: String| symbol_of(s@)),
            decreases n - i,
        {
            let s = symbols[i].clone();
            let sym = Symbol::from(s);
            out.push(sym);
            proof {
                assert(symbols@.take(i + 1).map_values(|s: String| symbol_of(s@)) =~= symbols@.take(
                    i as int,
                ).map_values(|s: String| symbol_of(s@)).push(symbol_of(symbols@[i as int]@)));
                assert(views(out@) =~= views(out@.drop_last()).push(out@.last()@));
            }
            i = i + 1;
        }
        proof {
            assert(symbols@.take(n as int) =~= symbols@);
        }
        Normalized(normalize(out))
    }
}

impl Default for Normalized {
    fn default() -> (r: Self)
        ensures
            r.symbols() == Seq::<Symbol>::empty(),
    {
        let r = Normalized(Vec::new());
        assert(views(r.0@) =~= Seq::<SymbolView>::empty());
        r
    }
}

/// A type defining the market data a client intends to subscribe to.
#[derive(Debug, PartialEq)]
pub struct MarketData {
    /// The aggregate bars to subscribe to.
    pub bars: Normalized,
    /// The quotes to subscribe to.
    pub quotes: Normalized,
}

/// Whether two market data descriptions name the same symbols.
pub open spec fn same_data(a: MarketData, b: MarketData) -> bool {
    a.bars.symbols() == b.bars.symbols() && a.quotes.symbols() == b.quotes.symbols()
}

impl Clone for MarketData {
    fn clone(&self) -> (r: Self)
        ensures
            same_data(r, *self),
    {
        MarketData { bars: self.bars.clone(), quotes: self.quotes.clone() }
    }
}

impl Default for MarketData {
    fn default() -> (r: Self)
        ensures
            r.bars.symbols() == Seq::<Symbol>::empty(),
            r.quotes.symbols() == Seq::<Symbol>::empty(),
    {
        MarketData { bars: Normalized::default(), quotes: Normalized::default() }
    }
}

impl MarketData {
    /// Set the [`bars`][MarketData::bars] member.
    pub fn set_bars(&mut self, symbols: Normalized)
        ensures
            final(self).bars == symbols,
            final(self).quotes == old(self).quotes,
    {
        self.bars = symbols;
    }

    /// Set the [`quotes`][MarketData::quotes] member.
    pub fn set_quotes(&mut self, symbols: Normalized)
        ensures
            final(self).quotes == symbols,
            final(self).bars == old(self).bars,
    {
        self.quotes = symbols;
    }
}

/// An enum representing the different messages we may receive over our
/// websocket channel.
#[derive(Clone, Debug, PartialEq)]
pub enum DataMessage {
    /// A variant representing aggregate data for a given symbol.
    Bar(Bar),
    /// A variant representing a quote for a given symbol.
    Quote(Quote),
    /// A control message describing the current list of subscriptions.
    Subscription(MarketData),
    /// A control message indicating that the last operation was
    /// successful.
    Success,
    /// An error reported by the Alpaca Stream API.
    Error(StreamApiError),
}

/// A data item as received over our websocket channel.
#[derive(Debug)]
pub enum Data {
    /// A variant representing aggregate data for a given symbol.
    Bar(Bar),
    /// A variant representing quote data for a given symbol.
    Quote(Quote),
}

impl Data {
    /// Check whether this object is of the `Bar` variant.
    pub fn is_bar(&self) -> (r: bool)
        ensures
            r == (*self is Bar),
    {
        match self {
            Data::Bar(..) => true,
            _ => false,
        }
    }

    /// Check whether this object is of the `Quote` variant.
    pub fn is_quote(&self) -> (r: bool)
        ensures
            r == (*self is Quote),
    {
        match self {
            Data::Quote(..) => true,
            _ => false,
        }
    }
}

/// An enumeration of the supported control messages.
#[derive(Debug)]
pub enum ControlMessage {
    /// A control message describing the current list of subscriptions.
    Subscription(MarketData),
    /// A control message indicating that the last operation was
    /// successful.
    Success,
    /// An error reported by the Alpaca Stream API.
    Error(StreamApiError),
}

/// How a received message is dispatched: to the user, or to the
/// subscription as a control message.
#[derive(Debug)]
pub enum Classification<U, C> {
    /// A message for the user.
    UserMessage(U),
    /// A control message.
    ControlMessage(C),
}

/// A websocket message that we tried to parse.
pub type ParsedMessage = Result<Result<DataMessage, JsonError>, WebSocketError>;

/// A message handed to the user.
pub type UserMessage = Result<Result<Data, JsonError>, WebSocketError>;

/// How a parsed message is dispatched: bars and quotes, as well as JSON
/// and websocket errors, go to the user; the rest are control messages.
pub open spec fn classification(message: ParsedMessage) -> Classification<
    UserMessage,
    ControlMessage,
> {
    match message {
        Ok(Ok(DataMessage::Bar(bar))) => Classification::UserMessage(Ok(Ok(Data::Bar(bar)))),
        Ok(Ok(DataMessage::Quote(quote))) => Classification::UserMessage(
            Ok(Ok(Data::Quote(quote))),
        ),
        Ok(Ok(DataMessage::Subscription(data))) => Classification::ControlMessage(
            ControlMessage::Subscription(data),
        ),
        Ok(Ok(DataMessage::Success)) => Classification::ControlMessage(ControlMessage::Success),
        Ok(Ok(DataMessage::Error(error))) => Classification::ControlMessage(
            ControlMessage::Error(error),
        ),
        Ok(Err(err)) => Classification::UserMessage(Ok(Err(err))),
        Err(err) => Classification::UserMessage(Err(err)),
    }
}

/// Bars and quotes, and the JSON and websocket errors, reach the user
/// unchanged; subscription, success and error replies, and only those,
/// are kept as control messages, unchanged.
pub proof fn lemma_classification(message: ParsedMessage)
    ensures
        message matches Ok(Ok(DataMessage::Bar(b))) ==> classification(message) == Classification::<
            UserMessage,
            ControlMessage,
        >::UserMessage(Ok(Ok(Data::Bar(b)))),
        message matches Ok(Ok(DataMessage::Quote(q))) ==> classification(message)
            == Classification::<UserMessage, ControlMessage>::UserMessage(Ok(Ok(Data::Quote(q)))),
        message matches Ok(Ok(DataMessage::Subscription(d))) ==> classification(message)
            == Classification::<UserMessage, ControlMessage>::ControlMessage(
            ControlMessage::Subscription(d),
        ),
        message matches Ok(Ok(DataMessage::Success)) ==> classification(message)
            == Classification::<UserMessage, ControlMessage>::ControlMessage(ControlMessage::Success),
        message matches Ok(Ok(DataMessage::Error(e))) ==> classification(message)
            == Classification::<UserMessage, ControlMessage>::ControlMessage(
            ControlMessage::Error(e),
        ),
        message matches Ok(Err(e)) ==> classification(message) == Classification::<
            UserMessage,
            ControlMessage,
        >::UserMessage(Ok(Err(e))),
        message matches Err(e) ==> classification(message) == Classification::<
            UserMessage,
            ControlMessage,
        >::UserMessage(Err(e)),
{
}

/// Classify a parsed message.
pub fn classify(message: ParsedMessage) -> (r: Classification<UserMessage, ControlMessage>)
    ensures
        r == classification(message),
{
    match message {
        Ok(Ok(message)) => match message {
            DataMessage::Bar(bar) => Classification::UserMessage(Ok(Ok(Data::Bar(bar)))),
            DataMessage::Quote(quote) => Classification::UserMessage(Ok(Ok(Data::Quote(quote)))),
            DataMessage::Subscription(data) => Classification::ControlMessage(
                ControlMessage::Subscription(data),
            ),
            DataMessage::Success => Classification::ControlMessage(ControlMessage::Success),
            DataMessage::Error(error) => Classification::ControlMessage(
                ControlMessage::Error(error),
            ),
        },
        Ok(Err(err)) => Classification::UserMessage(Ok(Err(err))),
        Err(err) => Classification::UserMessage(Err(err)),
    }
}

/// Check whether a user message is an error: both websocket and JSON
/// errors are (an API error is a control message instead).
pub fn is_error(user_message: &UserMessage) -> (r: bool)
    ensures
        r == !(*user_message matches Ok(Ok(_))),
{
    match user_message {
        Ok(Ok(_)) => false,
        _ => true,
    }
}

/// The error that a failed user message becomes when it ends an
/// operation on the subscription.
pub fn stream_failure(user_message: UserMessage) -> (r: Error)
    requires
        !(user_message matches Ok(Ok(_))),
    ensures
        match user_message {
            Ok(Err(e)) => r == Error::Json(e),
            Err(e) => r == Error::WebSocket(e),
            Ok(Ok(_)) => false,
        },
{
    match user_message {
        Ok(Err(e)) => Error::Json(e),
        Err(e) => Error::WebSocket(e),
        Ok(Ok(_)) => {
            assert(false);
            Error::Str(String::new())
        },
    }
}

/// A control message request sent over a websocket channel.
#[derive(Debug)]
pub enum Request {
    /// Authenticate with the given credentials.
    Authenticate {
        /// The key ID.
        key_id: String,
        /// The secret.
        secret: String,
    },
    /// Subscribe to receive updates for the given market data.
    Subscribe(MarketData),
    /// Unsubscribe from receiving updates for the given market data.
    Unsubscribe(MarketData),
}

/// The reply to a control request: the control message received, `Err`
/// where the reply could not be read, `None` where the stream closed
/// before a reply arrived.
pub type Response = Option<Result<ControlMessage, ()>>;

/// What the first message of a new stream means: success, or the error
/// text.
pub open spec fn connected_outcome(response: Response) -> Result<(), Seq<char>> {
    match response {
        Some(Ok(ControlMessage::Success)) => Ok(()),
        Some(Ok(_)) => Err("server responded with unexpected initial message"@),
        Some(Err(())) => Err("failed to read connected message"@),
        None => Err("stream was closed before connected message was received"@),
    }
}

/// What the reply to an authentication request means.
pub open spec fn authentication_outcome(response: Response) -> Result<(), Seq<char>> {
    match response {
        Some(Ok(ControlMessage::Success)) => Ok(()),
        Some(Ok(ControlMessage::Subscription(..))) => Err(
            "server responded with unexpected subscription message"@,
        ),
        Some(Ok(ControlMessage::Error(error))) => Err(
            "failed to authenticate with server: "@ + api_error_text(error),
        ),
        Some(Err(())) => Err("failed to authenticate with server"@),
        None => Err("stream was closed before authorization message was received"@),
    }
}

/// What the reply to a subscribe or unsubscribe request means.
pub open spec fn subscription_outcome(response: Response) -> Result<(), Seq<char>> {
    match response {
        Some(Ok(ControlMessage::Subscription(_))) => Ok(()),
        Some(Ok(ControlMessage::Error(error))) => Err(
            "failed to subscribe: "@ + api_error_text(error),
        ),
        Some(Ok(_)) => Err("server responded with unexpected message"@),
        Some(Err(())) => Err("failed to adjust subscription"@),
        None => Err("stream was closed before subscription confirmation message was received"@),
    }
}

/// A new stream is ready exactly when its first message is the success
/// message; authentication succeeds exactly on a success reply; a
/// subscription change succeeds exactly on a subscription reply. Any
/// other reply, a reply that cannot be read, or a closed stream is a
/// failure, and an API error reply carries the API error's text.
pub proof fn lemma_stream_outcomes(response: Response, error: StreamApiError)
    ensures
        (connected_outcome(response) is Ok) == (response == Some(
            Ok::<ControlMessage, ()>(ControlMessage::Success),
        )),
        (authentication_outcome(response) is Ok) == (response == Some(
            Ok::<ControlMessage, ()>(ControlMessage::Success),
        )),
        (subscription_outcome(response) is Ok) == (response matches Some(
            Ok(ControlMessage::Subscription(_)),
        )),
        (authentication_outcome(Some(Ok(ControlMessage::Error(error)))) matches Err(m)
            && api_error_text(error).is_suffix_of(m)),
        (subscription_outcome(Some(Ok(ControlMessage::Error(error)))) matches Err(m)
            && api_error_text(error).is_suffix_of(m)),
{
    let t = api_error_text(error);
    let a = "failed to authenticate with server: "@ + t;
    let b = "failed to subscribe: "@ + t;
    assert(a.subrange(a.len() - t.len(), a.len() as int) =~= t);
    assert(b.subrange(b.len() - t.len(), b.len() as int) =~= t);
}

/// Check the first message of a new stream.
pub fn check_connected(response: Response) -> (r: Result<(), Error>)
    ensures
        outcome(r) == Some(connected_outcome(response)),
{
    match response {
        Some(Ok(ControlMessage::Success)) => Ok(()),
        Some(Ok(_)) => Err(str_error("server responded with unexpected initial message")),
        Some(Err(())) => Err(str_error("failed to read connected message")),
        None => Err(str_error("stream was closed before connected message was received")),
    }
}

/// Check the reply to an authentication request.
pub fn check_authentication(response: Response) -> (r: Result<(), Error>)
    ensures
        outcome(r) == Some(authentication_outcome(response)),
{
    match response {
        Some(Ok(ControlMessage::Success)) => Ok(()),
        Some(Ok(ControlMessage::Subscription(..))) => Err(
            str_error("server responded with unexpected subscription message"),
        ),
        Some(Ok(ControlMessage::Error(error))) => {
            let mut m = String::new();
            append_str(&mut m, "failed to authenticate with server: ");
            append_error(&mut m, &error);
            Err(Error::Str(m))
        },
        Some(Err(())) => Err(str_error("failed to authenticate with server")),
        None => Err(str_error("stream was closed before authorization message was received")),
    }
}

/// The stage of establishing a market data stream.
#[derive(Clone, Copy, Debug, PartialEq, Eq, Structural)]
pub enum ConnectStage {
    /// Waiting for the server's first message.
    AwaitingConnected,
    /// Waiting for the reply to the authentication request.
    AwaitingAuthentication,
    /// The stream is established.
    Connected,
    /// Establishing the stream failed.
    Failed,
}

/// What to do next while establishing a market data stream.
#[derive(Debug)]
pub enum ConnectAction {
    /// Send this request and hand back the reply.
    Send(Request),
    /// The stream is ready for use.
    Done,
    /// Give up with this error.
    Fail(Error),
}

/// Advance the establishment of a market data stream by the reply
/// received in the given stage: the server's first message must report
/// success, upon which the credentials are sent; a successful
/// authentication completes the connection.
pub fn connect_step(stage: ConnectStage, key_id: &str, secret: &str, response: Response) -> (r: (
    ConnectStage,
    ConnectAction,
))
    requires
        stage is AwaitingConnected || stage is AwaitingAuthentication,
    ensures
        stage is AwaitingConnected ==> match connected_outcome(response) {
            Ok(()) => r.0 is AwaitingAuthentication && (r.1 matches ConnectAction::Send(
                Request::Authenticate { key_id: k, secret: s },
            ) && k@ == key_id@ && s@ == secret@),
            Err(m) => r.0 is Failed && (r.1 matches ConnectAction::Fail(Error::Str(e)) && e@ == m),
        },
        stage is AwaitingAuthentication ==> match authentication_outcome(response) {
            Ok(()) => r.0 is Connected && r.1 is Done,
            Err(m) => r.0 is Failed && (r.1 matches ConnectAction::Fail(Error::Str(e)) && e@ == m),
        },
{
    match stage {
        ConnectStage::AwaitingConnected => match check_connected(response) {
            Ok(()) => (
                ConnectStage::AwaitingAuthentication,
                ConnectAction::Send(
                    Request::Authenticate {
                        key_id: String::from_str(key_id),
                        secret: String::from_str(secret),
                    },
                ),
            ),
            Err(e) => (ConnectStage::Failed, ConnectAction::Fail(e)),
        },
        _ => match check_authentication(response) {
            Ok(()) => (ConnectStage::Connected, ConnectAction::Done),
            Err(e) => (ConnectStage::Failed, ConnectAction::Fail(e)),
        },
    }
}

/// The state of a subscription to real time market data: the currently
/// active individual market data subscriptions.
#[derive(Debug)]
pub struct Subscription {
    subscriptions: MarketData,
}

impl Subscription {
    /// The currently active subscriptions.
    pub closed spec fn active(&self) -> MarketData {
        self.subscriptions
    }

    /// A subscription to nothing yet.
    pub fn new() -> (r: Self)
        ensures
            r.active().bars.symbols() == Seq::<Symbol>::empty(),
            r.active().quotes.symbols() == Seq::<Symbol>::empty(),
    {
        Subscription { subscriptions: MarketData::default() }
    }

    /// Inquire the currently active individual market data
    /// subscriptions.
    pub fn subscriptions(&self) -> (r: &MarketData)
        ensures
            *r == self.active(),
    {
        &self.subscriptions
    }

    /// The request that subscribes to the given *additional* market data.
    pub fn subscribe(subscribe: &MarketData) -> (r: Request)
        ensures
            r matches Request::Subscribe(d) && same_data(d, *subscribe),
    {
        Request::Subscribe(subscribe.clone())
    }

    /// The request that unsubscribes from the given market data.
    pub fn unsubscribe(unsubscribe: &MarketData) -> (r: Request)
        ensures
            r matches Request::Unsubscribe(d) && same_data(d, *unsubscribe),
    {
        Request::Unsubscribe(unsubscribe.clone())
    }

    /// Handle the reply to a subscribe or unsubscribe request: a
    /// subscription message becomes the active subscriptions; anything
    /// else leaves them as they are and is an error.
    pub fn handle_response(&mut self, response: Response) -> (r: Result<(), Error>)
        ensures
            outcome(r) == Some(subscription_outcome(response)),
            match response {
                Some(Ok(ControlMessage::Subscription(data))) => final(self).active() == data,
                _ => final(self).active() == old(self).active(),
            },
    {
        match response {
            Some(Ok(ControlMessage::Subscription(data))) => {
                self.subscriptions = data;
                Ok(())
            },
            Some(Ok(ControlMessage::Error(error))) => {
                let mut m = String::new();
                append_str(&mut m, "failed to subscribe: ");
                append_error(&mut m, &error);
                Err(Error::Str(m))
            },
            Some(Ok(_)) => Err(str_error("server responded with unexpected message")),
            Some(Err(())) => Err(str_error("failed to adjust subscription")),
            None => Err(
                str_error("stream was closed before subscription confirmation message was received"),
            ),
        }
    }
}

/// A type used for requesting a subscription to real time market data
/// from the source `S`.
#[derive(Debug)]
pub struct RealtimeData<S> {
    _phantom: PhantomData<S>,
}

impl<S: Source> RealtimeData<S> {
    /// The URL of the stream: the data stream base URL with the path
    /// `v2/{source}`; `None` where the base URL is no URL.
    pub fn url(data_stream_base_url: &str) -> (r: Option<String>)
        ensures
            match r {
                Some(u) => spec_url_set_path(data_stream_base_url@, "v2/"@ + S::name()) == Some(
                    u@,
                ),
                None => spec_url_set_path(data_stream_base_url@, "v2/"@ + S::name()) is None,
            },
    {
        let mut path = String::new();
        append_str(&mut path, "v2/");
        append_str(&mut path, S::as_str());
        url_with_path(data_stream_base_url, path.as_str())
    }
}

} // verus!
