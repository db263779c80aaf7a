//! Definitions surrounding assets.

use vstd::prelude::*;

use crate::endpoint::evaluate_standard;
use crate::endpoint::standard_errors;
use crate::endpoint::evaluation;
use crate::endpoint::ApiMessage;
use crate::endpoint::EndpointError;
use crate::endpoint::ErrorKind;
use crate::endpoint::Method;
use crate::id::append_hyphenated;
use crate::id::parse_uuid;
use crate::id::spec_uuid_parse;
use crate::id::uuid_length;
use crate::id::all_ascii;
use crate::id::uuid_hyphenated;
use crate::text::append_str;
use crate::text::chars_eq;
use crate::text::chars_of;
use crate::text::string_of;

use uuid::Error as UuidError;

verus! {

/// The `uuid` crate's error type, carried as is.
#[verifier::external_type_specification]
#[verifier::external_body]
pub struct ExUuidError(UuidError);

/// `Clone` of the `uuid` crate's error type, which is derived there: the
/// clone equals the value cloned.
pub assume_specification[ <UuidError as Clone>::clone ](e: &UuidError) -> (r: UuidError)
    ensures
        r == *e,
;

/// An ID uniquely identifying an asset.
#[derive(Clone, Copy, Debug, PartialEq, Eq, Hash, Structural)]
pub struct Id(pub u128);

/// An enumeration of the various asset classes available.
#[derive(Clone, Copy, Debug, PartialEq, Eq, Structural)]
pub enum Class {
    /// US equities.
    UsEquity,
    /// Crypto currencies.
    Crypto,
    /// Any other asset class that we have not accounted for.
    ///
    /// Note that having any such unknown asset class should be considered
    /// a bug.
    Unknown,
}

/// The textual form of an asset class.
pub open spec fn class_text(c: Class) -> Seq<char> {
    match c {
        Class::UsEquity => "us_equity"@,
        Class::Crypto => "crypto"@,
        Class::Unknown => "unknown"@,
    }
}

/// The asset class that a string names, if any. The `Unknown` class is
/// not named by any string.
pub open spec fn class_from_text(s: Seq<char>) -> Option<Class> {
    if s == class_text(Class::UsEquity) {
        Some(Class::UsEquity)
    } else if s == class_text(Class::Crypto) {
        Some(Class::Crypto)
    } else {
        None
    }
}

/// Whether the characters `s` equal those of the literal `lit`.
fn chars_eq_str(s: &[char], lit: &str) -> (r: bool)
    ensures
        r == (s@ == lit@),
{
    let l = chars_of(lit);
    chars_eq(s, l.as_slice())
}

impl Class {
    /// The textual form of the class.
    pub fn as_ref(&self) -> (r: &'static str)
        ensures
            r@ == class_text(*self),
    {
        match *self {
            Class::UsEquity => "us_equity",
            Class::Crypto => "crypto",
            Class::Unknown => "unknown",
        }
    }

    /// Parse a class from the characters of its textual form.
    pub fn from_chars(s: &[char]) -> (r: Result<Class, ()>)
        ensures
            r == (match class_from_text(s@) {
                Some(c) => Ok(c),
                None => Err(()),
            }),
    {
        if chars_eq_str(s, Class::UsEquity.as_ref()) {
            Ok(Class::UsEquity)
        } else if chars_eq_str(s, Class::Crypto.as_ref()) {
            Ok(Class::Crypto)
        } else {
            Err(())
        }
    }

    /// Parse a class from its textual form.
    ///
    /// Note that the `Unknown` variant cannot be created this way; it is
    /// only meant to cover data received from Alpaca.
    pub fn from_str(s: &str) -> (r: Result<Class, ()>)
        ensures
            r == (match class_from_text(s@) {
                Some(c) => Ok(c),
                None => Err(()),
            }),
    {
        let cs = chars_of(s);
        Class::from_chars(cs.as_slice())
    }
}

impl Default for Class {
    fn default() -> (r: Self)
        ensures
            r == Class::UsEquity,
    {
        Class::UsEquity
    }
}

/// The status an asset can have.
#[derive(Clone, Copy, Debug, PartialEq, Eq, Structural)]
pub enum Status {
    /// The asset is active.
    Active,
    /// The asset is inactive.
    Inactive,
    /// Any other asset status that we have not accounted for.
    ///
    /// Note that having any such unknown asset class should be considered
    /// a bug.
    Unknown,
}

impl Status {
    /// The textual form of the status.
    pub fn as_ref(&self) -> (r: &'static str)
        ensures
            r@ == (match *self {
                Status::Active => "active"@,
                Status::Inactive => "inactive"@,
                Status::Unknown => "unknown"@,
            }),
    {
        match *self {
            Status::Active => "active",
            Status::Inactive => "inactive",
            Status::Unknown => "unknown",
        }
    }
}

impl Default for Status {
    fn default() -> (r: Self)
        ensures
            r == Status::Active,
    {
        Status::Active
    }
}

/// An enumeration of all possible symbol parsing errors.
#[derive(Clone, Debug, PartialEq, Eq)]
pub enum ParseSymbolError {
    /// The symbol contains an invalid character.
    InvalidSymbol(char),
    /// The exchange is unknown.
    UnknownExchange,
    /// The asset class is unknown.
    UnknownClass,
    /// The ID could not be parsed.
    InvalidId(UuidError),
    /// The symbol has an invalid/unrecognized format.
    InvalidFormat,
}

/// The `Display` text of a `uuid` parse error. Nothing is stated of it:
/// it is whatever that crate writes.
#[verifier::external_body]
fn uuid_error_text(e: &UuidError) -> String {
    e.to_string()
}

/// The message of a symbol parsing error, except for an ID that could not
/// be parsed, whose message ends in the text of the `uuid` error.
pub open spec fn parse_error_text(e: ParseSymbolError) -> Option<Seq<char>> {
    match e {
        ParseSymbolError::InvalidSymbol(c) => Some(
            "the symbol contains an invalid character ('"@ + seq![c] + "')"@,
        ),
        ParseSymbolError::UnknownExchange => Some("the exchange is unknown"@),
        ParseSymbolError::UnknownClass => Some("the asset class is unknown"@),
        ParseSymbolError::InvalidId(_) => None,
        ParseSymbolError::InvalidFormat => Some("the symbol is of an invalid format"@),
    }
}

impl ParseSymbolError {
    /// The message of the error.
    pub fn to_string(&self) -> (r: String)
        ensures
            parse_error_text(*self) matches Some(t) ==> r@ == t,
            self is InvalidId ==> "failed to parse asset ID: "@.is_prefix_of(r@),
    {
        let mut s = String::new();
        match self {
            ParseSymbolError::InvalidSymbol(c) => {
                append_str(&mut s, "the symbol contains an invalid character ('");
                crate::text::push_char(&mut s, *c);
                append_str(&mut s, "')");
            },
            ParseSymbolError::UnknownExchange => append_str(&mut s, "the exchange is unknown"),
            ParseSymbolError::UnknownClass => append_str(&mut s, "the asset class is unknown"),
            ParseSymbolError::InvalidId(err) => {
                append_str(&mut s, "failed to parse asset ID: ");
                let t = uuid_error_text(err);
                let ghost prefix = s@;
                append_str(&mut s, t.as_str());
                assert(s@.subrange(0, prefix.len() as int) =~= prefix);
            },
            ParseSymbolError::InvalidFormat => append_str(
                &mut s,
                "the symbol is of an invalid format",
            ),
        }
        s
    }
}

/// An enumeration of the various supported exchanges.
#[derive(Clone, Copy, Debug, PartialEq, Eq, Structural)]
pub enum Exchange {
    /// American Stock Exchange.
    Amex,
    /// NYSE Arca, as listed by Alpaca under "ARCA".
    Arca,
    /// BATS Global Markets.
    Bats,
    /// Nasdaq Stock Market.
    Nasdaq,
    /// New York Stock Exchange.
    Nyse,
    /// NYSE Arca.
    Nysearca,
    /// An over-the-counter desk.
    Otc,
    /// Any other exchange that we have not accounted for.
    ///
    /// Note that having any such unknown exchange should be considered a
    /// bug.
    Unknown,
}

/// The textual form of an exchange.
pub open spec fn exchange_text(e: Exchange) -> Seq<char> {
    match e {
        Exchange::Amex => "AMEX"@,
        Exchange::Arca => "ARCA"@,
        Exchange::Bats => "BATS"@,
        Exchange::Nasdaq => "NASDAQ"@,
        Exchange::Nyse => "NYSE"@,
        Exchange::Nysearca => "NYSEARCA"@,
        Exchange::Otc => "OTC"@,
        Exchange::Unknown => "unknown"@,
    }
}

/// The exchange that a string names, if any. Neither `Otc` nor `Unknown`
/// is named by any string.
pub open spec fn exchange_from_text(s: Seq<char>) -> Option<Exchange> {
    if s == exchange_text(Exchange::Amex) {
        Some(Exchange::Amex)
    } else if s == exchange_text(Exchange::Arca) {
        Some(Exchange::Arca)
    } else if s == exchange_text(Exchange::Bats) {
        Some(Exchange::Bats)
    } else if s == exchange_text(Exchange::Nasdaq) {
        Some(Exchange::Nasdaq)
    } else if s == exchange_text(Exchange::Nyse) {
        Some(Exchange::Nyse)
    } else if s == exchange_text(Exchange::Nysearca) {
        Some(Exchange::Nysearca)
    } else {
        None
    }
}

impl Exchange {
    /// The textual form of the exchange.
    pub fn as_ref(&self) -> (r: &'static str)
        ensures
            r@ == exchange_text(*self),
    {
        match *self {
            Exchange::Amex => "AMEX",
            Exchange::Arca => "ARCA",
            Exchange::Bats => "BATS",
            Exchange::Nasdaq => "NASDAQ",
            Exchange::Nyse => "NYSE",
            Exchange::Nysearca => "NYSEARCA",
            Exchange::Otc => "OTC",
            Exchange::Unknown => "unknown",
        }
    }

    /// Parse an exchange from the characters of its textual form.
    pub fn from_chars(s: &[char]) -> (r: Result<Exchange, ()>)
        ensures
            r == (match exchange_from_text(s@) {
                Some(e) => Ok(e),
                None => Err(()),
            }),
    {
        if chars_eq_str(s, Exchange::Amex.as_ref()) {
            Ok(Exchange::Amex)
        } else if chars_eq_str(s, Exchange::Arca.as_ref()) {
            Ok(Exchange::Arca)
        } else if chars_eq_str(s, Exchange::Bats.as_ref()) {
            Ok(Exchange::Bats)
        } else if chars_eq_str(s, Exchange::Nasdaq.as_ref()) {
            Ok(Exchange::Nasdaq)
        } else if chars_eq_str(s, Exchange::Nyse.as_ref()) {
            Ok(Exchange::Nyse)
        } else if chars_eq_str(s, Exchange::Nysearca.as_ref()) {
            Ok(Exchange::Nysearca)
        } else {
            Err(())
        }
    }

    /// Parse an exchange from its textual form.
    ///
    /// Note that the `Unknown` variant cannot be created this way; it is
    /// only meant to cover data received from Alpaca.
    pub fn from_str(s: &str) -> (r: Result<Exchange, ()>)
        ensures
            r == (match exchange_from_text(s@) {
                Some(e) => Ok(e),
                None => Err(()),
            }),
    {
        let cs = chars_of(s);
        Exchange::from_chars(cs.as_slice())
    }
}

/// A symbol and the various ways to represent it.
#[derive(Clone, Debug, PartialEq, Eq)]
pub enum Symbol {
    /// The symbol. Note that this is not a unique way to identify an
    /// asset (the same symbol may be used in different exchanges or asset
    /// classes).
    Sym(String),
    /// A symbol at a specific exchange.
    SymExchg(String, Exchange),
    /// A symbol for a given asset class at a specific exchange.
    SymExchgCls(String, Exchange, Class),
    /// An asset as described by an ID.
    Id(Id),
}

/// The mathematical value of a [`Symbol`].
pub enum SymbolView {
    /// See [`Symbol::Sym`].
    Sym(Seq<char>),
    /// See [`Symbol::SymExchg`].
    SymExchg(Seq<char>, Exchange),
    /// See [`Symbol::SymExchgCls`].
    SymExchgCls(Seq<char>, Exchange, Class),
    /// See [`Symbol::Id`].
    Id(u128),
}

impl View for Symbol {
    type V = SymbolView;

    open spec fn view(&self) -> SymbolView {
        match self {
            Symbol::Sym(s) => SymbolView::Sym(s@),
            Symbol::SymExchg(s, e) => SymbolView::SymExchg(s@, *e),
            Symbol::SymExchgCls(s, e, c) => SymbolView::SymExchgCls(s@, *e, *c),
            Symbol::Id(id) => SymbolView::Id(id.0),
        }
    }
}

/// The textual form of a symbol: the symbol, then exchange and class
/// (where present) separated by `:`; an ID in its hyphenated form.
pub open spec fn symbol_text(v: SymbolView) -> Seq<char> {
    match v {
        SymbolView::Sym(s) => s,
        SymbolView::SymExchg(s, e) => s + ":"@ + exchange_text(e),
        SymbolView::SymExchgCls(s, e, c) => s + ":"@ + exchange_text(e) + ":"@ + class_text(c),
        SymbolView::Id(v) => uuid_hyphenated(v),
    }
}

/// The pieces of `s` between `:` characters, as `str::split(':')`
/// yields them.
pub open spec fn split_colon(s: Seq<char>) -> Seq<Seq<char>>
    decreases s.len(),
{
    if s.len() == 0 {
        seq![Seq::empty()]
    } else {
        let p = split_colon(s.drop_last());
        if s.last() == ':' {
            p.push(Seq::empty())
        } else {
            p.update(p.len() - 1, p.last().push(s.last()))
        }
    }
}

/// Whether a byte is an upper case ASCII letter.
pub open spec fn is_upper_byte(b: u8) -> bool {
    65 <= b <= 90
}

/// The first byte of `bytes` that is not an upper case ASCII letter.
pub open spec fn first_non_upper(bytes: Seq<u8>) -> Option<u8>
    decreases bytes.len(),
{
    if bytes.len() == 0 {
        None
    } else if !is_upper_byte(bytes[0]) {
        Some(bytes[0])
    } else {
        first_non_upper(bytes.drop_first())
    }
}

/// What a symbol without `:` parses to, given what it parses to as a
/// UUID (`id`): the ID if there is one, otherwise the symbol itself if
/// all of its (UTF-8) bytes are upper case ASCII letters.
pub open spec fn parse_single(part: Seq<char>, id: Option<u128>) -> Result<
    SymbolView,
    ParseSymbolError,
> {
    match id {
        Some(v) => Ok(SymbolView::Id(v)),
        None => match first_non_upper(vstd::utf8::encode_utf8(part)) {
            Some(b) => Err(ParseSymbolError::InvalidSymbol(b as char)),
            None => Ok(SymbolView::Sym(part)),
        },
    }
}

/// What `Symbol::from_str` makes of a string.
pub open spec fn parse_symbol(s: Seq<char>) -> Result<SymbolView, ParseSymbolError> {
    let parts = split_colon(s);
    if parts.len() == 1 {
        parse_single(parts[0], spec_uuid_parse(parts[0]))
    } else if parts.len() == 2 {
        match exchange_from_text(parts[1]) {
            Some(e) => Ok(SymbolView::SymExchg(parts[0], e)),
            None => Err(ParseSymbolError::UnknownExchange),
        }
    } else if parts.len() == 3 {
        match exchange_from_text(parts[1]) {
            Some(e) => match class_from_text(parts[2]) {
                Some(c) => Ok(SymbolView::SymExchgCls(parts[0], e, c)),
                None => Err(ParseSymbolError::UnknownClass),
            },
            None => Err(ParseSymbolError::UnknownExchange),
        }
    } else {
        Err(ParseSymbolError::InvalidFormat)
    }
}

/// The view of a parse result.
pub open spec fn result_view(r: Result<Symbol, ParseSymbolError>) -> Result<
    SymbolView,
    ParseSymbolError,
> {
    match r {
        Ok(s) => Ok(s@),
        Err(e) => Err(e),
    }
}

proof fn lemma_split_colon_nonempty(s: Seq<char>)
    ensures
        split_colon(s).len() >= 1,
    decreases s.len(),
{
    if s.len() > 0 {
        lemma_split_colon_nonempty(s.drop_last());
    }
}

/// Split the characters `s` at every `:`.
fn split_colon_vec(s: &[char]) -> (r: Vec<Vec<char>>)
    ensures
        r@.map_values(|p: Vec<char>| p@) == split_colon(s@),
{
    let mut done: Vec<Vec<char>> = Vec::new();
    let mut cur: Vec<char> = Vec::new();
    let mut i: usize = 0;
    while i < s.len()
        invariant
            i <= s@.len(),
            done@.map_values(|p: Vec<char>| p@).push(cur@) == split_colon(s@.take(i as int)),
        decreases s@.len() - i,
    {
        let c = s[i];
        proof {
            assert(s@.take(i + 1).drop_last() =~= s@.take(i as int));
            lemma_split_colon_nonempty(s@.take(i as int));
        }
        if c == ':' {
            let finished = cur;
            proof {
                assert(done@.push(finished).map_values(|p: Vec<char>| p@) =~= done@.map_values(
                    |p: Vec<char>| p@,
                ).push(finished@));
            }
            done.push(finished);
            cur = Vec::new();
            proof {
                assert(done@.map_values(|p: Vec<char>| p@).push(cur@) =~= split_colon(
                    s@.take(i + 1),
                ));
            }
        } else {
            let ghost prev = cur@;
            cur.push(c);
            proof {
                assert(done@.map_values(|p: Vec<char>| p@).push(cur@) =~= split_colon(
                    s@.take(i + 1),
                ));
            }
        }
        i = i + 1;
    }
    proof {
        assert(s@.take(i as int) =~= s@);
        assert(done@.push(cur).map_values(|p: Vec<char>| p@) =~= done@.map_values(
            |p: Vec<char>| p@,
        ).push(cur@));
    }
    done.push(cur);
    done
}

/// The first byte of `bytes` that is not an upper case ASCII letter.
fn find_non_upper(bytes: &[u8]) -> (r: Option<u8>)
    ensures
        r == first_non_upper(bytes@),
{
    let mut i: usize = 0;
    assert(bytes@.skip(0) =~= bytes@);
    while i < bytes.len()
        invariant
            i <= bytes@.len(),
            first_non_upper(bytes@) == first_non_upper(bytes@.skip(i as int)),
        decreases bytes@.len() - i,
    {
        assert(bytes@.skip(i as int).drop_first() =~= bytes@.skip(i + 1));
        let b = bytes[i];
        if !(65 <= b && b <= 90) {
            return Some(b);
        }
        i = i + 1;
    }
    assert(bytes@.skip(i as int).len() == 0);
    None
}

impl Symbol {
    /// Create a symbol from a string that holds no `:`, given what that
    /// string parses to as a UUID.
    ///
    /// An ID is taken as such; otherwise the string is a plain symbol if
    /// all of its bytes are upper case ASCII letters, and the first byte
    /// that is not is reported.
    pub fn from_single(part: &str, id: Option<u128>) -> (r: Result<Symbol, ParseSymbolError>)
        ensures
            result_view(r) == parse_single(part@, id),
    {
        match id {
            Some(v) => Ok(Symbol::Id(Id(v))),
            None => {
                match find_non_upper(part.as_bytes()) {
                    Some(b) => Err(ParseSymbolError::InvalidSymbol(b as char)),
                    None => Ok(Symbol::Sym(string_of(chars_of(part).as_slice()))),
                }
            },
        }
    }

    /// Parse a symbol from its textual form.
    pub fn from_str(sym: &str) -> (r: Result<Symbol, ParseSymbolError>)
        ensures
            result_view(r) == parse_symbol(sym@),
            plain_symbol(sym@) && !uuid_length(sym@.len() as int) ==> result_view(r) == Ok::<
                SymbolView,
                ParseSymbolError,
            >(SymbolView::Sym(sym@)),
    {
        let cs = chars_of(sym);
        let parts = split_colon_vec(cs.as_slice());
        proof {
            assert(parts@.map_values(|p: Vec<char>| p@).len() == parts@.len());
            if plain_symbol(sym@) {
                assert(!sym@.contains(':')) by {
                    if sym@.contains(':') {
                        let k = choose|k: int| 0 <= k < sym@.len() && sym@[k] == ':';
                        assert('A' <= sym@[k] <= 'Z');
                    }
                }
                lemma_split_no_colon(sym@);
            }
        }
        if parts.len() == 1 {
            proof {
                assert(parts@.map_values(|p: Vec<char>| p@)[0] == parts@[0]@);
                assert(split_colon(sym@)[0] == sym@) by {
                    lemma_single_part(sym@);
                }
            }
            let id = parse_uuid(sym);
            proof {
                if plain_symbol(sym@) && !uuid_length(sym@.len() as int) {
                    assert(all_ascii(sym@)) by {
                        assert forall|i: int| 0 <= i < sym@.len() implies #[trigger] sym@[i]
                            < '\u{80}' by {
                            assert('A' <= sym@[i] <= 'Z');
                        }
                    }
                    lemma_symbol_round_trip(SymbolView::Sym(sym@));
                }
            }
            Symbol::from_single(sym, id)
        } else if parts.len() == 2 {
            proof {
                assert(parts@.map_values(|p: Vec<char>| p@)[0] == parts@[0]@);
                assert(parts@.map_values(|p: Vec<char>| p@)[1] == parts@[1]@);
            }
            match Exchange::from_chars(parts[1].as_slice()) {
                Ok(e) => Ok(Symbol::SymExchg(string_of(parts[0].as_slice()), e)),
                Err(()) => Err(ParseSymbolError::UnknownExchange),
            }
        } else if parts.len() == 3 {
            proof {
                assert(parts@.map_values(|p: Vec<char>| p@)[0] == parts@[0]@);
                assert(parts@.map_values(|p: Vec<char>| p@)[1] == parts@[1]@);
                assert(parts@.map_values(|p: Vec<char>| p@)[2] == parts@[2]@);
            }
            match Exchange::from_chars(parts[1].as_slice()) {
                Ok(e) => match Class::from_chars(parts[2].as_slice()) {
                    Ok(c) => Ok(Symbol::SymExchgCls(string_of(parts[0].as_slice()), e, c)),
                    Err(()) => Err(ParseSymbolError::UnknownClass),
                },
                Err(()) => Err(ParseSymbolError::UnknownExchange),
            }
        } else {
            Err(ParseSymbolError::InvalidFormat)
        }
    }

    /// The textual form of the symbol, which `from_str` reads back (see
    /// [`lemma_symbol_round_trip`]).
    pub fn to_string(&self) -> (r: String)
        ensures
            r@ == symbol_text(self@),
    {
        let mut s = String::new();
        match self {
            Symbol::Sym(sym) => {
                append_str(&mut s, sym.as_str());
            },
            Symbol::SymExchg(sym, exchg) => {
                append_str(&mut s, sym.as_str());
                append_str(&mut s, ":");
                append_str(&mut s, exchg.as_ref());
            },
            Symbol::SymExchgCls(sym, exchg, cls) => {
                append_str(&mut s, sym.as_str());
                append_str(&mut s, ":");
                append_str(&mut s, exchg.as_ref());
                append_str(&mut s, ":");
                append_str(&mut s, cls.as_ref());
            },
            Symbol::Id(id) => {
                append_hyphenated(&mut s, id.0);
            },
        }
        assert(s@ =~= symbol_text(self@));
        s
    }
}

impl From<Id> for Symbol {
    fn from(symbol: Id) -> (r: Self)
        ensures
            r == Symbol::Id(symbol),
    {
        Symbol::Id(symbol)
    }
}

impl vstd::std_specs::convert::FromSpecImpl<Id> for Symbol {
    open spec fn obeys_from_spec() -> bool {
        true
    }

    open spec fn from_spec(v: Id) -> Self {
        Symbol::Id(v)
    }
}

/// The representation of an asset as used by Alpaca.
#[derive(Clone, Debug, PartialEq, Eq)]
pub struct Asset {
    /// The asset's ID.
    pub id: Id,
    /// The asset's class.
    pub class: Class,
    /// The exchange the asset is traded at.
    pub exchange: Exchange,
    /// The asset's symbol.
    pub symbol: String,
    /// The asset's status.
    pub status: Status,
    /// Whether the asset is tradable on Alpaca or not.
    pub tradable: bool,
    /// Whether the asset is marginable or not.
    pub marginable: bool,
    /// Whether the asset is shortable or not.
    pub shortable: bool,
    /// Whether the asset is considered easy-to-borrow or not.
    ///
    /// A value of `true` is a prerequisite for being able to short it.
    pub easy_to_borrow: bool,
    /// Whether the asset is fractionable or not.
    pub fractionable: bool,
}

/// The representation of a GET request to the /v2/assets/{symbol}
/// endpoint.
#[derive(Clone, Copy, Debug)]
pub struct Get;

impl Get {
    /// The HTTP method of the request.
    pub fn method() -> (r: Method)
        ensures
            r == Method::Get,
    {
        Method::Get
    }

    /// The path of the request: the symbol in its textual form.
    pub fn path(input: &Symbol) -> (r: String)
        ensures
            r@ == "/v2/assets/"@ + symbol_text(input@),
    {
        let mut s = String::new();
        append_str(&mut s, "/v2/assets/");
        let sym = input.to_string();
        append_str(&mut s, sym.as_str());
        s
    }

    /// Evaluate the HTTP status of a response: 200 carries the asset; no
    /// asset exists for the symbol on 404.
    pub fn evaluate(status: u16, message: ApiMessage) -> (r: Result<(), EndpointError>)
        ensures
            r == evaluation(
                seq![200u16],
                standard_errors(seq![(404u16, ErrorKind::NotFound)]),
                status,
                message,
            ),
    {
        let ok = [200u16];
        let errs = [(404u16, ErrorKind::NotFound)];
        proof {
            assert(ok@ =~= seq![200u16]);
            assert(errs@ =~= seq![(404u16, ErrorKind::NotFound)]);
        }
        evaluate_standard(&ok, &errs, status, message)
    }
}

/// A string without `:` is split into itself.
proof fn lemma_single_part(s: Seq<char>)
    requires
        split_colon(s).len() == 1,
    ensures
        split_colon(s)[0] == s,
    decreases s.len(),
{
    if s.len() > 0 {
        lemma_split_colon_nonempty(s.drop_last());
        let p = split_colon(s.drop_last());
        if s.last() != ':' {
            lemma_single_part(s.drop_last());
            assert(s.drop_last().push(s.last()) =~= s);
        }
    }
}

/// Joins parts with `:` between them; the inverse of [`split_colon`].
pub open spec fn join_colon(parts: Seq<Seq<char>>) -> Seq<char>
    decreases parts.len(),
{
    if parts.len() <= 1 {
        if parts.len() == 1 {
            parts[0]
        } else {
            Seq::empty()
        }
    } else {
        join_colon(parts.drop_last()) + ":"@ + parts.last()
    }
}

proof fn lemma_colon_literal()
    ensures
        ":"@ == seq![':'],
{
    reveal_strlit(":");
}

/// Splitting at `:` and joining again gives back the string.
pub proof fn lemma_join_split(s: Seq<char>)
    ensures
        join_colon(split_colon(s)) == s,
    decreases s.len(),
{
    lemma_colon_literal();
    if s.len() > 0 {
        let p = split_colon(s.drop_last());
        lemma_join_split(s.drop_last());
        lemma_split_colon_nonempty(s.drop_last());
        if s.last() == ':' {
            assert(p.push(Seq::empty()).drop_last() =~= p);
            assert(join_colon(p) + ":"@ + Seq::<char>::empty() =~= s);
        } else {
            let q = p.update(p.len() - 1, p.last().push(s.last()));
            if p.len() == 1 {
                assert(s.drop_last().push(s.last()) =~= s);
            } else {
                assert(q.drop_last() =~= p.drop_last());
                assert(join_colon(p) == join_colon(p.drop_last()) + ":"@ + p.last());
                assert(join_colon(q) =~= join_colon(p) + seq![s.last()]);
                assert(s.drop_last() + seq![s.last()] =~= s);
            }
        }
    }
}

/// A string without `:` is a single part.
proof fn lemma_split_no_colon(s: Seq<char>)
    requires
        !s.contains(':'),
    ensures
        split_colon(s) == seq![s],
    decreases s.len(),
{
    if s.len() > 0 {
        assert(!s.drop_last().contains(':')) by {
            if s.drop_last().contains(':') {
                let k = choose|k: int| 0 <= k < s.drop_last().len() && s.drop_last()[k] == ':';
                assert(s[k] == ':');
            }
        }
        lemma_split_no_colon(s.drop_last());
        assert(s[s.len() - 1] != ':');
        assert(s.drop_last().push(s.last()) =~= s);
    } else {
        assert(s =~= Seq::<char>::empty());
    }
}

/// Splitting `x:y` gives the parts of `x` followed by those of `y`.
proof fn lemma_split_concat(x: Seq<char>, y: Seq<char>)
    ensures
        split_colon(x + seq![':'] + y) == split_colon(x) + split_colon(y),
    decreases y.len(),
{
    lemma_split_colon_nonempty(x);
    if y.len() == 0 {
        assert((x + seq![':'] + y).drop_last() =~= x);
        assert(split_colon(x).push(Seq::empty()) =~= split_colon(x) + split_colon(y));
    } else {
        let w = x + seq![':'] + y;
        assert(w.drop_last() =~= x + seq![':'] + y.drop_last());
        lemma_split_concat(x, y.drop_last());
        lemma_split_colon_nonempty(y.drop_last());
        let p = split_colon(x);
        let q = split_colon(y.drop_last());
        if y.last() == ':' {
            assert((p + q).push(Seq::empty()) =~= p + q.push(Seq::empty()));
        } else {
            assert((p + q).update((p + q).len() - 1, (p + q).last().push(y.last())) =~= p
                + q.update(q.len() - 1, q.last().push(y.last())));
        }
    }
}

proof fn lemma_hex_digits_no_colon(v: nat, n: nat)
    ensures
        !crate::id::hex_digits(v, n).contains(':'),
    decreases n,
{
    if n > 0 {
        lemma_hex_digits_no_colon(v / 16, (n - 1) as nat);
        let p = crate::id::hex_digits(v / 16, (n - 1) as nat);
        let q = p.push(crate::id::hex_digit(v % 16));
        assert forall|k: int| 0 <= k < q.len() implies q[k] != ':' by {
            if k < p.len() {
                assert(q[k] == p[k]);
            }
        }
    }
}

proof fn lemma_first_non_upper_none(bytes: Seq<u8>)
    requires
        forall|i: int| 0 <= i < bytes.len() ==> is_upper_byte(#[trigger] bytes[i]),
    ensures
        first_non_upper(bytes) is None,
    decreases bytes.len(),
{
    if bytes.len() > 0 {
        assert(is_upper_byte(bytes[0]));
        lemma_first_non_upper_none(bytes.drop_first());
    }
}

/// Each exchange is written as the API names it, and no two exchanges
/// are written alike.
pub proof fn lemma_exchange_text(a: Exchange, b: Exchange)
    ensures
        exchange_text(Exchange::Amex) == seq!['A', 'M', 'E', 'X'],
        exchange_text(Exchange::Arca) == seq!['A', 'R', 'C', 'A'],
        exchange_text(Exchange::Bats) == seq!['B', 'A', 'T', 'S'],
        exchange_text(Exchange::Nasdaq) == seq!['N', 'A', 'S', 'D', 'A', 'Q'],
        exchange_text(Exchange::Nyse) == seq!['N', 'Y', 'S', 'E'],
        exchange_text(Exchange::Nysearca) == seq!['N', 'Y', 'S', 'E', 'A', 'R', 'C', 'A'],
        exchange_text(Exchange::Otc) == seq!['O', 'T', 'C'],
        exchange_text(Exchange::Unknown) == seq!['u', 'n', 'k', 'n', 'o', 'w', 'n'],
        exchange_text(a) == exchange_text(b) ==> a == b,
{
    reveal_strlit("AMEX");
    reveal_strlit("ARCA");
    reveal_strlit("BATS");
    reveal_strlit("NASDAQ");
    reveal_strlit("NYSE");
    reveal_strlit("NYSEARCA");
    reveal_strlit("OTC");
    reveal_strlit("unknown");
    reveal_strlit("us_equity");
    reveal_strlit("crypto");
    if a != b {
        let x = exchange_text(a);
        let y = exchange_text(b);
        if x.len() == y.len() {
            assert(x[0] != y[0] || x[1] != y[1]);
        }
    }
}

/// Each asset class is written as the API names it, and no two classes
/// are written alike.
pub proof fn lemma_class_text(a: Class, b: Class)
    ensures
        class_text(Class::UsEquity) == seq!['u', 's', '_', 'e', 'q', 'u', 'i', 't', 'y'],
        class_text(Class::Crypto) == seq!['c', 'r', 'y', 'p', 't', 'o'],
        class_text(Class::Unknown) == seq!['u', 'n', 'k', 'n', 'o', 'w', 'n'],
        class_text(a) == class_text(b) ==> a == b,
{
    reveal_strlit("AMEX");
    reveal_strlit("ARCA");
    reveal_strlit("BATS");
    reveal_strlit("NASDAQ");
    reveal_strlit("NYSE");
    reveal_strlit("NYSEARCA");
    reveal_strlit("OTC");
    reveal_strlit("unknown");
    reveal_strlit("us_equity");
    reveal_strlit("crypto");
}

/// Every exchange but `Otc` and `Unknown` is read back from its textual
/// form.
pub proof fn lemma_exchange_round_trip(e: Exchange)
    requires
        e != Exchange::Otc,
        e != Exchange::Unknown,
    ensures
        exchange_from_text(exchange_text(e)) == Some(e),
{
    reveal_strlit("AMEX");
    reveal_strlit("ARCA");
    reveal_strlit("BATS");
    reveal_strlit("NASDAQ");
    reveal_strlit("NYSE");
    reveal_strlit("NYSEARCA");
    let t = exchange_text(e);
    assert(t != "AMEX"@ ==> e != Exchange::Amex);
    if e != Exchange::Amex {
        assert(t != "AMEX"@) by {
            if e == Exchange::Arca {
                assert(t[1] != "AMEX"@[1]);
            } else if e == Exchange::Nasdaq || e == Exchange::Nysearca {
                assert(t.len() != "AMEX"@.len());
            } else {
                assert(t[0] != "AMEX"@[0]);
            }
        }
    }
    if e != Exchange::Amex && e != Exchange::Arca {
        assert(t != "ARCA"@) by {
            if e == Exchange::Nasdaq || e == Exchange::Nysearca {
                assert(t.len() != "ARCA"@.len());
            } else {
                assert(t[0] != "ARCA"@[0]);
            }
        }
    }
    if e != Exchange::Amex && e != Exchange::Arca && e != Exchange::Bats {
        assert(t != "BATS"@) by {
            if e == Exchange::Nasdaq || e == Exchange::Nysearca {
                assert(t.len() != "BATS"@.len());
            } else {
                assert(t[0] != "BATS"@[0]);
            }
        }
    }
    if e == Exchange::Nyse || e == Exchange::Nysearca {
        assert(t != "NASDAQ"@) by {
            assert(t.len() != "NASDAQ"@.len());
        }
    }
    if e == Exchange::Nysearca {
        assert(t != "NYSE"@) by {
            assert(t.len() != "NYSE"@.len());
        }
    }
}

/// Every class but `Unknown` is read back from its textual form.
pub proof fn lemma_class_round_trip(c: Class)
    requires
        c != Class::Unknown,
    ensures
        class_from_text(class_text(c)) == Some(c),
{
    reveal_strlit("us_equity");
    reveal_strlit("crypto");
    assert("us_equity"@.len() != "crypto"@.len());
}

proof fn lemma_texts_no_colon(e: Exchange, c: Class)
    ensures
        !exchange_text(e).contains(':'),
        !class_text(c).contains(':'),
{
    reveal_strlit("AMEX");
    reveal_strlit("ARCA");
    reveal_strlit("BATS");
    reveal_strlit("NASDAQ");
    reveal_strlit("NYSE");
    reveal_strlit("NYSEARCA");
    reveal_strlit("OTC");
    reveal_strlit("unknown");
    reveal_strlit("us_equity");
    reveal_strlit("crypto");
}

/// Whether `s` is made of upper case ASCII letters only.
pub open spec fn plain_symbol(s: Seq<char>) -> bool {
    forall|i: int| 0 <= i < s.len() ==> 'A' <= #[trigger] s[i] <= 'Z'
}

/// The symbols that `from_str` reads back from their textual form: a
/// plain symbol of upper case ASCII letters that is not also the text
/// of a UUID, a symbol without `:` together with an exchange (and
/// class) that have a textual form that is read back, and an ID whose
/// hyphenated form the `uuid` crate reads back.
pub open spec fn symbol_round_trips(v: SymbolView) -> bool {
    match v {
        SymbolView::Sym(s) => (forall|i: int| 0 <= i < s.len() ==> 'A' <= #[trigger] s[i] <= 'Z')
            && spec_uuid_parse(s) is None,
        SymbolView::SymExchg(s, e) => !s.contains(':') && e != Exchange::Otc && e
            != Exchange::Unknown,
        SymbolView::SymExchgCls(s, e, c) => !s.contains(':') && e != Exchange::Otc && e
            != Exchange::Unknown && c != Class::Unknown,
        SymbolView::Id(x) => spec_uuid_parse(uuid_hyphenated(x)) == Some(x),
    }
}

/// Writing a symbol and parsing the text gives back the symbol.
pub proof fn lemma_symbol_round_trip(v: SymbolView)
    requires
        symbol_round_trips(v),
    ensures
        parse_symbol(symbol_text(v)) == Ok::<SymbolView, ParseSymbolError>(v),
{
    lemma_colon_literal();
    match v {
        SymbolView::Sym(s) => {
            assert(!s.contains(':')) by {
                if s.contains(':') {
                    let k = choose|k: int| 0 <= k < s.len() && s[k] == ':';
                    assert('A' <= s[k] <= 'Z');
                }
            }
            lemma_split_no_colon(s);
            assert(vstd::utf8::is_ascii_chars(s)) by {
                assert forall|i: int| 0 <= i < s.len() implies '\0' <= #[trigger] s[i]
                    <= '\u{7f}' by {
                    assert('A' <= s[i] <= 'Z');
                }
            }
            vstd::utf8::is_ascii_chars_encode_utf8(s);
            let bytes = vstd::utf8::encode_utf8(s);
            assert forall|i: int| 0 <= i < bytes.len() implies is_upper_byte(#[trigger] bytes[i]) by {
                assert('A' <= s[i] <= 'Z');
                assert(s[i] as u8 == bytes[i]);
                let c = s[i];
                assert(65 <= (c as int) <= 90);
                assert((c as u8) as int == c as int);
            }
            lemma_first_non_upper_none(bytes);
        },
        SymbolView::SymExchg(s, e) => {
            lemma_texts_no_colon(e, Class::Unknown);
            lemma_split_no_colon(s);
            lemma_split_no_colon(exchange_text(e));
            lemma_split_concat(s, exchange_text(e));
            lemma_exchange_round_trip(e);
        },
        SymbolView::SymExchgCls(s, e, c) => {
            lemma_texts_no_colon(e, c);
            lemma_split_no_colon(s);
            lemma_split_no_colon(exchange_text(e));
            lemma_split_no_colon(class_text(c));
            lemma_split_concat(s, exchange_text(e));
            lemma_split_concat(s + seq![':'] + exchange_text(e), class_text(c));
            lemma_exchange_round_trip(e);
            lemma_class_round_trip(c);
        },
        SymbolView::Id(x) => {
            let d = crate::id::uuid_simple(x);
            lemma_hex_digits_no_colon(x as nat, 32);
            let t = uuid_hyphenated(x);
            assert(!t.contains(':')) by {
                if t.contains(':') {
                    let k = choose|k: int| 0 <= k < t.len() && t[k] == ':';
                    crate::id::lemma_hex_digits_len(x as nat, 32);
                    if k < 8 {
                        assert(t[k] == d[k]);
                    } else if k == 8 {
                    } else if k < 13 {
                        assert(t[k] == d[k - 1]);
                    } else if k == 13 {
                    } else if k < 18 {
                        assert(t[k] == d[k - 2]);
                    } else if k == 18 {
                    } else if k < 23 {
                        assert(t[k] == d[k - 3]);
                    } else if k == 23 {
                    } else {
                        assert(t[k] == d[k - 4]);
                    }
                }
            }
            lemma_split_no_colon(t);
        },
    }
}

/// Parsing a text that is not an ID and writing the symbol gives back
/// the text.
pub proof fn lemma_parse_write(s: Seq<char>)
    ensures
        parse_symbol(s) is Ok && !(parse_symbol(s)->Ok_0 is Id) ==> symbol_text(
            parse_symbol(s)->Ok_0,
        ) == s,
{
    lemma_colon_literal();
    lemma_join_split(s);
    let parts = split_colon(s);
    if parts.len() == 1 {
        assert(join_colon(parts) == parts[0]);
    } else if parts.len() == 2 {
        assert(parts.drop_last() =~= seq![parts[0]]);
        assert(join_colon(parts.drop_last()) == parts[0]);
        assert(join_colon(parts) == parts[0] + ":"@ + parts[1]);
        if let Some(e) = exchange_from_text(parts[1]) {
            assert(exchange_text(e) == parts[1]);
        }
    } else if parts.len() == 3 {
        let p2 = parts.drop_last();
        assert(p2.drop_last() =~= seq![parts[0]]);
        assert(p2.last() == parts[1]);
        assert(join_colon(p2.drop_last()) == parts[0]);
        assert(join_colon(p2) == parts[0] + ":"@ + parts[1]);
        assert(join_colon(parts) == parts[0] + ":"@ + parts[1] + ":"@ + parts[2]);
        if let Some(e) = exchange_from_text(parts[1]) {
            assert(exchange_text(e) == parts[1]);
            if let Some(c) = class_from_text(parts[2]) {
                assert(class_text(c) == parts[2]);
            }
        }
    }
}

} // verus!
