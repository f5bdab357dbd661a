//! A point in time read from the command line: epoch seconds, epoch
//! milliseconds, or the English output of `date`.

use chrono::{DateTime, TimeZone, Utc};
use vstd::prelude::*;

use crate::decimal::{decimal_string, i64_of, is_digit, lemma_i64_of_decimal_string, parse_i64};
use crate::error::Error;
use crate::offsets::{
    free_of_c, lemma_cest_offset, lemma_cet_offset, tz_name_to_offset, with_numeric_offsets,
};

verus! {

/// Integers of smaller magnitude are epoch seconds, the others epoch milliseconds.
pub const SECONDS_CUTOFF: i64 = 1_000_000_000_000;

/// The first second that chrono represents: -262143-01-01T00:00:00Z.
pub const MIN_EPOCH_SECONDS: i64 = -8_334_601_228_800;

/// The last second that chrono represents: +262142-12-31T23:59:59Z.
pub const MAX_EPOCH_SECONDS: i64 = 8_210_266_876_799;

/// The last millisecond that chrono represents.
pub const MAX_EPOCH_MILLIS: i64 = MAX_EPOCH_SECONDS * 1000 + 999;

/// What `date` prints under an English locale, with the zone as a numeric
/// offset: `Fri Aug 25 08:47:09 AM +0200 2023`.
pub const CALENDAR_FORMAT: &'static str = "%a %b %e %I:%M:%S %p %z %Y";

/// An instant as seconds since 1970-01-01T00:00:00Z and nanoseconds past that
/// second (a leap second counts up to two seconds' worth).
pub struct Instant {
    pub seconds: int,
    pub nanos: int,
}

impl Instant {
    pub open spec fn wf(self) -> bool {
        0 <= self.nanos < 2_000_000_000
    }

    /// Whole milliseconds since the epoch.
    pub open spec fn epoch_millis(self) -> int {
        self.seconds * 1000 + self.nanos / 1_000_000
    }
}

pub open spec fn representable(seconds: int) -> bool {
    MIN_EPOCH_SECONDS <= seconds <= MAX_EPOCH_SECONDS
}

/// The UTC instant, as epoch seconds and nanoseconds, that chrono reads from
/// `text` with the format `fmt`.
pub uninterp spec fn chrono_parse(text: Seq<char>, fmt: Seq<char>) -> Option<(i64, u32)>;

/// Relies on chrono's `TimeZone::timestamp_opt` for `Utc`: it gives an instant
/// exactly when the day of `secs` lies within chrono's date range, and that
/// instant keeps the seconds and nanoseconds given.
#[verifier::external_body]
fn utc_from_seconds(secs: i64, nanos: u32) -> (r: Option<(i64, u32)>)
    requires
        nanos < 1_000_000_000,
    ensures
        r == (if representable(secs as int) {
            Some((secs, nanos))
        } else {
            None::<(i64, u32)>
        }),
{
    match Utc.timestamp_opt(secs, nanos).single() {
        Some(t) => Some((t.timestamp(), t.timestamp_subsec_nanos())),
        None => None,
    }
}

/// Relies on chrono's `TimeZone::timestamp_millis_opt` for `Utc`: it splits
/// `millis` by Euclidean division into seconds and milliseconds, and gives an
/// instant exactly when those seconds are in range.
#[verifier::external_body]
fn utc_from_millis(millis: i64) -> (r: Option<(i64, u32)>)
    ensures
        r == (if representable(millis as int / 1000) {
            Some(((millis as int / 1000) as i64, ((millis as int % 1000) * 1_000_000) as u32))
        } else {
            None::<(i64, u32)>
        }),
{
    match Utc.timestamp_millis_opt(millis).single() {
        Some(t) => Some((t.timestamp(), t.timestamp_subsec_nanos())),
        None => None,
    }
}

/// Relies on chrono's `DateTime::parse_from_str`, taken as a UTC instant: the
/// result depends on the text and the format alone, and its nanoseconds stay
/// below 2_000_000_000 (`DateTime::timestamp_subsec_nanos`, which is
/// `NaiveTime::nanosecond`: past 999_999_999 only within a leap second). The
/// calendar format opens with `%a`, which fails on text shorter than three
/// bytes (`format::scan::short_weekday`), so it never reads an empty text.
#[verifier::external_body]
fn parse_with_format(text: &str, fmt: &str) -> (r: Option<(i64, u32)>)
    ensures
        r == chrono_parse(text@, fmt@),
        r matches Some(p) ==> p.1 < 2_000_000_000,
        fmt@ == CALENDAR_FORMAT@ && text@.len() == 0 ==> r is None,
{
    match DateTime::parse_from_str(text, fmt) {
        Ok(t) => Some((t.timestamp(), t.timestamp_subsec_nanos())),
        Err(_) => None,
    }
}

/// What an integer stands for: seconds below the cutoff in magnitude,
/// milliseconds otherwise; nothing where chrono cannot represent it.
pub open spec fn integer_instant(n: int) -> Option<Instant> {
    if -SECONDS_CUTOFF < n < SECONDS_CUTOFF {
        if representable(n) {
            Some(Instant { seconds: n, nanos: 0 })
        } else {
            None
        }
    } else if representable(n / 1000) {
        Some(Instant { seconds: n / 1000, nanos: (n % 1000) * 1_000_000 })
    } else {
        None
    }
}

/// The first form: the whole text is an `i64` of epoch seconds or milliseconds.
pub open spec fn epoch_instant(s: Seq<char>) -> Option<Instant> {
    match i64_of(s) {
        Some(n) => integer_instant(n as int),
        None => None,
    }
}

/// The second form: after the zone names are rewritten, the text matches the
/// calendar format.
pub open spec fn calendar_instant(s: Seq<char>) -> Option<Instant> {
    match chrono_parse(with_numeric_offsets(s), CALENDAR_FORMAT@) {
        Some(p) => Some(Instant { seconds: p.0 as int, nanos: p.1 as int }),
        None => None,
    }
}

/// The instant that `s` denotes: the first form that reads it wins.
pub open spec fn parsed_instant(s: Seq<char>) -> Option<Instant> {
    match epoch_instant(s) {
        Some(i) => Some(i),
        None => calendar_instant(s),
    }
}

/// An instant in UTC. Equality and order are those of the instant.
#[derive(Debug, Clone, Copy, Hash, PartialEq, Eq, Structural, PartialOrd, Ord)]
pub struct Timestamp {
    secs: i64,
    nanos: u32,
}

impl View for Timestamp {
    type V = Instant;

    closed spec fn view(&self) -> Instant {
        Instant { seconds: self.secs as int, nanos: self.nanos as int }
    }
}

pub open spec fn option_view(r: Option<Timestamp>) -> Option<Instant> {
    match r {
        Some(t) => Some(t@),
        None => None,
    }
}

impl Timestamp {
    fn from_parts(parts: Option<(i64, u32)>) -> (r: Option<Timestamp>)
        ensures
            option_view(r) == (match parts {
                Some(p) => Some(Instant { seconds: p.0 as int, nanos: p.1 as int }),
                None => None,
            }),
    {
        match parts {
            Some((secs, nanos)) => Some(Timestamp { secs, nanos }),
            None => None,
        }
    }

    /// Reads `s` as epoch seconds or epoch milliseconds.
    pub fn decode_epoch(s: &str) -> (r: Option<Timestamp>)
        ensures
            option_view(r) == epoch_instant(s@),
    {
        match parse_i64(s) {
            Some(n) => {
                let parts = if -SECONDS_CUTOFF < n && n < SECONDS_CUTOFF {
                    utc_from_seconds(n, 0)
                } else {
                    utc_from_millis(n)
                };
                Timestamp::from_parts(parts)
            },
            None => None,
        }
    }

    /// Reads `s` in the calendar format, with `CET` and `CEST` standing for
    /// their offsets.
    pub fn decode_calendar(s: &str) -> (r: Option<Timestamp>)
        ensures
            option_view(r) == calendar_instant(s@),
            r matches Some(t) ==> t@.wf(),
            s@.len() == 0 ==> r is None,
    {
        let text = tz_name_to_offset(s);
        Timestamp::from_parts(parse_with_format(text.as_str(), CALENDAR_FORMAT))
    }

    /// Reads `s` in the first form that accepts it; fails with the text
    /// unchanged where none does.
    pub fn parse(s: &str) -> (r: Result<Timestamp, Error>)
        ensures
            match r {
                Ok(t) => parsed_instant(s@) == Some(t@) && t@.wf(),
                Err(e) => parsed_instant(s@) is None && (e matches Error::InvalidTimestamp(m)
                    && m@ == s@),
            },
            s@.len() == 0 ==> r is Err,
    {
        match Timestamp::decode_epoch(s) {
            Some(t) => {
                return Ok(t);
            },
            None => {},
        }
        match Timestamp::decode_calendar(s) {
            Some(t) => Ok(t),
            None => Err(Error::InvalidTimestamp(String::from_str(s))),
        }
    }

    /// Seconds since 1970-01-01T00:00:00Z.
    pub fn seconds(&self) -> (r: i64)
        ensures
            r == self@.seconds,
    {
        self.secs
    }

    /// Nanoseconds past the second.
    pub fn subsec_nanos(&self) -> (r: u32)
        ensures
            r == self@.nanos,
    {
        self.nanos
    }

    /// Whole milliseconds since 1970-01-01T00:00:00Z.
    pub fn epoch_millis(&self) -> (r: i128)
        ensures
            r == self@.epoch_millis(),
    {
        self.secs as i128 * 1000 + (self.nanos / 1_000_000) as i128
    }
}

/// Two timestamps with the same instant are the same value.
pub proof fn lemma_view_injective(a: Timestamp, b: Timestamp)
    requires
        a@ == b@,
    ensures
        a == b,
{
}

/// An integer below the cutoff in magnitude, written in decimal, reads as that
/// many seconds after the epoch (before it, when negative), with no sub-second
/// part.
pub proof fn lemma_seconds_round_trip(n: int)
    requires
        -SECONDS_CUTOFF < n < SECONDS_CUTOFF,
    ensures
        parsed_instant(decimal_string(n)) == Some(Instant { seconds: n, nanos: 0 }),
{
    lemma_i64_of_decimal_string(n as i64);
}

/// An integer from the cutoff up to the last millisecond that can be
/// represented, written in decimal, reads as an instant whose whole
/// milliseconds since the epoch are that integer, with nothing finer.
pub proof fn lemma_millis_round_trip(n: int)
    requires
        SECONDS_CUTOFF <= n <= MAX_EPOCH_MILLIS,
    ensures
        parsed_instant(decimal_string(n)) matches Some(i) && i.epoch_millis() == n && i.nanos
            % 1_000_000 == 0,
{
    lemma_i64_of_decimal_string(n as i64);
    let r = n % 1000;
    assert((r * 1_000_000) / 1_000_000 == r) by (nonlinear_arith)
        requires
            0 <= r < 1000,
    ;
    assert((r * 1_000_000) % 1_000_000 == 0) by (nonlinear_arith)
        requires
            0 <= r < 1000,
    ;
}

/// Text with a `C` in it is no integer.
proof fn lemma_no_epoch_with_c(s: Seq<char>, k: int)
    requires
        0 <= k < s.len(),
        s[k] == 'C',
    ensures
        epoch_instant(s) is None,
{
    assert(!is_digit(s[k]));
    if k > 0 {
        assert(s.drop_first()[k - 1] == 'C');
        assert(!is_digit(s.drop_first()[k - 1]));
    }
}

/// Between text free of `C`, a zone name reads as its offset would in the
/// calendar format: `CEST` as `+0200`, `CET` as `+0100`. Such text is never
/// read as an integer.
pub proof fn lemma_zone_names_read_as_offsets(a: Seq<char>, b: Seq<char>)
    requires
        free_of_c(a),
        free_of_c(b),
    ensures
        parsed_instant(a + "CEST"@ + b) == calendar_instant(a + "+0200"@ + b),
        parsed_instant(a + "CET"@ + b) == calendar_instant(a + "+0100"@ + b),
{
    reveal_strlit("CET");
    reveal_strlit("CEST");
    lemma_cest_offset(a, b);
    lemma_cet_offset(a, b);
    lemma_no_epoch_with_c(a + "CEST"@ + b, a.len() as int);
    lemma_no_epoch_with_c(a + "CET"@ + b, a.len() as int);
}

/// Reading is a function of the text alone: equal texts that both read as a
/// timestamp give equal timestamps.
pub proof fn lemma_parse_is_pure(s: Seq<char>, t: Seq<char>, a: Timestamp, b: Timestamp)
    requires
        s == t,
        parsed_instant(s) == Some(a@),
        parsed_instant(t) == Some(b@),
    ensures
        a == b,
{
    lemma_view_injective(a, b);
}

impl std::str::FromStr for Timestamp {
    type Err = Error;

    fn from_str(s: &str) -> (r: Result<Timestamp, Error>)
        ensures
            match r {
                Ok(t) => parsed_instant(s@) == Some(t@) && t@.wf(),
                Err(e) => parsed_instant(s@) is None && (e matches Error::InvalidTimestamp(m)
                    && m@ == s@),
            },
            s@.len() == 0 ==> r is Err,
    {
        Timestamp::parse(s)
    }
}

} // verus!
