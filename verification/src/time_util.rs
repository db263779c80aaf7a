//! Points in time and the parsing of time stamps.

use chrono::TimeZone;
use vstd::prelude::*;

verus! {

/// A point in time: the (signed) number of seconds since the UNIX epoch
/// and the nanoseconds within that second.
#[derive(Clone, Copy, Debug, PartialEq, Eq, Hash, Structural)]
pub struct Timestamp {
    /// Seconds since 1970-01-01T00:00:00Z.
    pub secs: i64,
    /// Nanoseconds within the second, below one billion.
    pub nanos: u32,
}

/// One billion: the number of nanoseconds in a second.
pub const NANOS_PER_SEC: u32 = 1_000_000_000;

/// The bound on the seconds of any time stamp that `chrono` represents
/// (its years lie within about 262,000 years of year zero).
pub const CHRONO_SECS_BOUND: i64 = 9_000_000_000_000;

/// What `chrono`'s `TimeZone::datetime_from_str` on `Utc` makes of a
/// string and a format: the UNIX time stamp and the nanoseconds since
/// the last second boundary.
pub uninterp spec fn spec_parse_utc(s: Seq<char>, fmt: Seq<char>) -> Option<(i64, u32)>;

/// What `chrono`'s `TimeZone::datetime_from_str` on the zero
/// `FixedOffset` makes of a string and a format.
pub uninterp spec fn spec_parse_fixed_zero(s: Seq<char>, fmt: Seq<char>) -> Option<(i64, u32)>;

/// What `chrono`'s `DateTime::parse_from_str` makes of a string and a
/// format.
pub uninterp spec fn spec_parse_with_offset(s: Seq<char>, fmt: Seq<char>) -> Option<(i64, u32)>;

/// Whether seconds and nanoseconds lie within what `chrono` represents:
/// the nanoseconds of a leap second exceed 999,999,999, but stay below
/// two billion.
pub open spec fn chrono_bounds(r: Option<(i64, u32)>) -> bool {
    r matches Some((s, n)) ==> -CHRONO_SECS_BOUND < s < CHRONO_SECS_BOUND && n < 2
        * NANOS_PER_SEC
}

/// Parse a time stamp in UTC with `chrono` (`Utc.datetime_from_str`),
/// reporting `timestamp()` and `timestamp_subsec_nanos()`.
///
/// The result is named by the string and the format; the contract
/// further states the documented ranges of the two numbers.
#[verifier::external_body]
#[allow(deprecated)]
fn parse_utc(s: &str, fmt: &str) -> (r: Option<(i64, u32)>)
    ensures
        r == spec_parse_utc(s@, fmt@),
        chrono_bounds(r),
{
    chrono::Utc.datetime_from_str(s, fmt).ok().map(|d| (d.timestamp(), d.timestamp_subsec_nanos()))
}

/// Parse a time stamp at offset zero with `chrono`
/// (`FixedOffset::east(0).datetime_from_str`), reporting `timestamp()`
/// and `timestamp_subsec_nanos()`.
#[verifier::external_body]
#[allow(deprecated)]
fn parse_fixed_zero(s: &str, fmt: &str) -> (r: Option<(i64, u32)>)
    ensures
        r == spec_parse_fixed_zero(s@, fmt@),
        chrono_bounds(r),
{
    chrono::FixedOffset::east(0).datetime_from_str(s, fmt).ok().map(
        |d| (d.timestamp(), d.timestamp_subsec_nanos()),
    )
}

/// Parse a time stamp with an offset with `chrono`
/// (`DateTime::parse_from_str`), reporting `timestamp()` and
/// `timestamp_subsec_nanos()`.
#[verifier::external_body]
fn parse_with_offset(s: &str, fmt: &str) -> (r: Option<(i64, u32)>)
    ensures
        r == spec_parse_with_offset(s@, fmt@),
        chrono_bounds(r),
{
    chrono::DateTime::parse_from_str(s, fmt).ok().map(
        |d| (d.timestamp(), d.timestamp_subsec_nanos()),
    )
}

/// The point in time that lies `nsec` nanoseconds after second `sec`:
/// nanoseconds of a whole second and more carry into the seconds.
pub open spec fn spec_time_of(sec: i64, nsec: u32) -> Timestamp {
    Timestamp {
        secs: (sec + nsec / NANOS_PER_SEC) as i64,
        nanos: (nsec % NANOS_PER_SEC) as u32,
    }
}

/// A point in time made from seconds and nanoseconds is the same instant,
/// with its nanoseconds below a whole second.
pub proof fn lemma_time_of_instant(sec: i64, nsec: u32)
    requires
        sec + nsec / NANOS_PER_SEC <= i64::MAX,
    ensures
        spec_time_of(sec, nsec).secs * 1_000_000_000 + spec_time_of(sec, nsec).nanos == sec
            * 1_000_000_000 + nsec,
        spec_time_of(sec, nsec).nanos < NANOS_PER_SEC,
{
    assert((nsec / NANOS_PER_SEC) * 1_000_000_000 + nsec % NANOS_PER_SEC == nsec);
}

/// The point in time `nsec` nanoseconds after second `sec` since the
/// UNIX epoch (as `UNIX_EPOCH + Duration::new(sec, nsec)` computes it,
/// and its counterpart for negative `sec`).
pub fn time_of(sec: i64, nsec: u32) -> (r: Timestamp)
    requires
        sec + nsec / NANOS_PER_SEC <= i64::MAX,
    ensures
        r == spec_time_of(sec, nsec),
{
    Timestamp { secs: sec + (nsec / NANOS_PER_SEC) as i64, nanos: nsec % NANOS_PER_SEC }
}

/// The point in time `seconds` seconds after the UNIX epoch.
pub fn system_time_from_secs(seconds: u64) -> (r: Timestamp)
    requires
        seconds <= i64::MAX,
    ensures
        r == (Timestamp { secs: seconds as i64, nanos: 0 }),
{
    Timestamp { secs: seconds as i64, nanos: 0 }
}

/// The result of the first of the parse results that succeeded, turned
/// into a point in time.
pub open spec fn first_time(results: Seq<Option<(i64, u32)>>) -> Option<Timestamp>
    decreases results.len(),
{
    if results.len() == 0 {
        None
    } else {
        match results[0] {
            Some((s, n)) => Some(spec_time_of(s, n)),
            None => first_time(results.drop_first()),
        }
    }
}

/// The time stamp formats that trading API time stamps use.
pub open spec fn utc_formats() -> Seq<Seq<char>> {
    seq!["%Y-%m-%dT%H:%M:%S%.fZ"@, "%Y-%m-%dT%H:%M:%SZ"@]
}

/// What a time stamp text denotes in UTC: parsed with fractional seconds
/// of any number of digits (`%.f`), or else without fractional seconds.
pub open spec fn utc_time(t: Seq<char>) -> Option<Timestamp> {
    match spec_parse_utc(t, "%Y-%m-%dT%H:%M:%S%.fZ"@) {
        Some((s, n)) => Some(spec_time_of(s, n)),
        None => match spec_parse_utc(t, "%Y-%m-%dT%H:%M:%SZ"@) {
            Some((s, n)) => Some(spec_time_of(s, n)),
            None => None,
        },
    }
}

/// Trading API time stamps are read with fractional seconds of any
/// number of digits first, and without fractional seconds second: the
/// first supported format that parses a text decides its time.
pub proof fn lemma_utc_time(t: Seq<char>)
    ensures
        first_time(seq![spec_parse_utc(t, utc_formats()[0]), spec_parse_utc(t, utc_formats()[1])])
            == utc_time(t),
        utc_time(t) == (match spec_parse_utc(t, "%Y-%m-%dT%H:%M:%S%.fZ"@) {
            Some((s, n)) => Some(Timestamp { secs: (s + n / 1_000_000_000) as i64, nanos: (n % 1_000_000_000) as u32 }),
            None => match spec_parse_utc(t, "%Y-%m-%dT%H:%M:%SZ"@) {
                Some((s, n)) => Some(Timestamp { secs: (s + n / 1_000_000_000) as i64, nanos: (n % 1_000_000_000) as u32 }),
                None => None,
            },
        }),
{
    reveal_with_fuel(first_time, 3);
    let rs = seq![spec_parse_utc(t, utc_formats()[0]), spec_parse_utc(t, utc_formats()[1])];
    assert(rs.drop_first() =~= seq![spec_parse_utc(t, utc_formats()[1])]);
    assert(rs.drop_first().drop_first() =~= Seq::<Option<(i64, u32)>>::empty());
}

/// Parse a time stamp in one of the supported UTC formats: with or
/// without fractional seconds. The first format that parses wins.
pub fn parse_system_time(time: &str) -> (r: Option<Timestamp>)
    ensures
        r == first_time(
            seq![
                spec_parse_utc(time@, utc_formats()[0]),
                spec_parse_utc(time@, utc_formats()[1]),
            ],
        ),
        r == utc_time(time@),
{
    proof {
        lemma_utc_time(time@);
    }
    proof {
        reveal_with_fuel(first_time, 3);
    }
    let first = parse_utc(time, "%Y-%m-%dT%H:%M:%S%.fZ");
    if let Some((s, n)) = first {
        return Some(time_of(s, n));
    }
    let second = parse_utc(time, "%Y-%m-%dT%H:%M:%SZ");
    if let Some((s, n)) = second {
        return Some(time_of(s, n));
    }
    None
}

/// Parse a time stamp in one of the supported formats: UTC with or
/// without fractional seconds, or with fractional seconds and an
/// explicit offset. The first format that parses wins.
pub fn parse_system_time_from_str(time: &str) -> (r: Option<Timestamp>)
    ensures
        r == first_time(
            seq![
                spec_parse_fixed_zero(time@, "%Y-%m-%dT%H:%M:%S%.fZ"@),
                spec_parse_fixed_zero(time@, "%Y-%m-%dT%H:%M:%SZ"@),
                spec_parse_with_offset(time@, "%Y-%m-%dT%H:%M:%S%.f%z"@),
            ],
        ),
{
    proof {
        reveal_with_fuel(first_time, 4);
    }
    let first = parse_fixed_zero(time, "%Y-%m-%dT%H:%M:%S%.fZ");
    if let Some((s, n)) = first {
        return Some(time_of(s, n));
    }
    let second = parse_fixed_zero(time, "%Y-%m-%dT%H:%M:%SZ");
    if let Some((s, n)) = second {
        return Some(time_of(s, n));
    }
    let third = parse_with_offset(time, "%Y-%m-%dT%H:%M:%S%.f%z");
    if let Some((s, n)) = third {
        return Some(time_of(s, n));
    }
    None
}

} // verus!
