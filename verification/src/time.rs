//! Instants of the event log.
//!
//! A [`Timestamp`] holds an instant as plain integers, so that ordering,
//! tolerance windows and calendar days are arithmetic that can be reasoned
//! about. The reading of the textual form and the time between two instants
//! are left to `chrono`.

use crate::error::DecodeError;
use vstd::prelude::*;

verus! {

/// Nanoseconds in one second.
pub const NANOS_PER_SECOND: u32 = 1_000_000_000;

/// Seconds in one calendar day.
pub const SECONDS_PER_DAY: i64 = 86_400;

/// A UTC instant: whole non-leap seconds since 1970-01-01T00:00:00Z, and the
/// nanoseconds past that second.
///
/// `nanos` at or above [`NANOS_PER_SECOND`] stands for a position inside a leap
/// second that extends the second `seconds`; such an instant lies after every
/// ordinary instant of that second and before the next second.
#[derive(Clone, Copy, Debug, PartialEq, Eq, Hash, Structural)]
pub struct Timestamp {
    pub seconds: i64,
    pub nanos: u32,
}

impl Default for Timestamp {
    /// 1970-01-01T00:00:00Z.
    fn default() -> (r: Self)
        ensures
            r == (Timestamp { seconds: 0, nanos: 0 }),
    {
        Timestamp { seconds: 0, nanos: 0 }
    }
}

/// A position on the time line as unbounded integers: `(seconds, nanos)`.
pub type Instant = (int, int);

/// `a` is at or before `b`: the order of instants is that of the seconds, and
/// within one second that of the nanoseconds.
pub open spec fn instant_le(a: Instant, b: Instant) -> bool {
    a.0 < b.0 || (a.0 == b.0 && a.1 <= b.1)
}

impl Timestamp {
    /// The instant as unbounded integers.
    pub open spec fn instant(self) -> Instant {
        (self.seconds as int, self.nanos as int)
    }

    /// The instant `seconds` whole seconds away (earlier for a negative
    /// number). An ordinary instant keeps its nanoseconds. An instant inside a
    /// leap second leaves it when it moves: forward from the second that the
    /// leap second extends, backward from the second that follows it. This
    /// is the arithmetic of clocks that know no leap seconds but the one
    /// they stand in, as `chrono` has it.
    pub open spec fn shifted(self, seconds: int) -> Instant {
        if self.nanos < NANOS_PER_SECOND || seconds == 0 {
            (self.seconds + seconds, self.nanos as int)
        } else if seconds > 0 {
            (self.seconds + seconds, self.nanos - NANOS_PER_SECOND)
        } else {
            (self.seconds + 1 + seconds, self.nanos - NANOS_PER_SECOND)
        }
    }

    /// `self` is at or before `other`.
    pub open spec fn at_or_before(self, other: Timestamp) -> bool {
        instant_le(self.instant(), other.instant())
    }

    /// `self` is strictly before `other`.
    pub open spec fn before(self, other: Timestamp) -> bool {
        !other.at_or_before(self)
    }

    /// `self` lies in the closed interval from `start` to `end`, widened on
    /// both sides by `tolerance` whole seconds.
    pub open spec fn within(self, start: Timestamp, end: Timestamp, tolerance: nat) -> bool {
        &&& instant_le(start.shifted(-(tolerance as int)), self.instant())
        &&& instant_le(self.instant(), end.shifted(tolerance as int))
    }

    /// `self` lies in the half-open interval that starts at `start` and ends
    /// before `end`, or never where there is no `end`.
    pub open spec fn in_span(self, start: Timestamp, end: Option<Timestamp>) -> bool {
        &&& start.at_or_before(self)
        &&& match end {
            Some(end) => self.before(end),
            None => true,
        }
    }

    /// The calendar day of the instant, counted in days since 1970-01-01.
    pub open spec fn day(self) -> int {
        self.seconds as int / (SECONDS_PER_DAY as int)
    }

    pub fn new(seconds: i64, nanos: u32) -> (r: Timestamp)
        ensures
            r.seconds == seconds,
            r.nanos == nanos,
    {
        Timestamp { seconds, nanos }
    }

    /// Whether `self` is at or before `other`.
    pub fn is_at_or_before(self, other: Timestamp) -> (r: bool)
        ensures
            r == self.at_or_before(other),
    {
        self.seconds < other.seconds || (self.seconds == other.seconds && self.nanos
            <= other.nanos)
    }

    /// Whether `self` is strictly before `other`.
    pub fn is_before(self, other: Timestamp) -> (r: bool)
        ensures
            r == self.before(other),
    {
        self.seconds < other.seconds || (self.seconds == other.seconds && self.nanos
            < other.nanos)
    }

    /// Whether `self` lies between `start` and `end`, both ends included and
    /// each moved outward by `tolerance` seconds.
    pub fn is_within(self, start: Timestamp, end: Timestamp, tolerance: u64) -> (r: bool)
        ensures
            r == self.within(start, end, tolerance as nat),
    {
        let at: i128 = self.seconds as i128;
        let nanos: u32 = self.nanos;
        let reach: i128 = tolerance as i128;
        let (low, low_nanos): (i128, u32) = if start.nanos < NANOS_PER_SECOND || tolerance == 0 {
            (start.seconds as i128 - reach, start.nanos)
        } else {
            (start.seconds as i128 + 1 - reach, start.nanos - NANOS_PER_SECOND)
        };
        let (high, high_nanos): (i128, u32) = if end.nanos < NANOS_PER_SECOND || tolerance == 0 {
            (end.seconds as i128 + reach, end.nanos)
        } else {
            (end.seconds as i128 + reach, end.nanos - NANOS_PER_SECOND)
        };
        let after_low = low < at || (low == at && low_nanos <= nanos);
        let before_high = at < high || (at == high && nanos <= high_nanos);
        after_low && before_high
    }

    /// Whether `self` lies at or after `start` and, where there is an `end`,
    /// strictly before it.
    pub fn is_in_span(self, start: Timestamp, end: Option<Timestamp>) -> (r: bool)
        ensures
            r == self.in_span(start, end),
    {
        if !start.is_at_or_before(self) {
            return false;
        }
        match end {
            Some(end) => self.is_before(end),
            None => true,
        }
    }

    /// The calendar day of the instant, in days since 1970-01-01; days before
    /// it are negative.
    pub fn day_number(self) -> (r: i64)
        ensures
            r == self.day(),
    {
        if self.seconds >= 0 {
            self.seconds / SECONDS_PER_DAY
        } else {
            let back: i64 = -(self.seconds + 1);
            let days: i64 = back / SECONDS_PER_DAY;
            assert(self.seconds as int / 86_400 == -days - 1) by (nonlinear_arith)
                requires
                    self.seconds < 0,
                    back == -(self.seconds + 1),
                    days == back as int / 86_400,
            ;
            -days - 1
        }
    }
}

/// What `chrono` reads from `text` as a date and time with an offset, taken to
/// UTC; `None` where it reads none.
pub uninterp spec fn parsed_timestamp(text: Seq<char>) -> Option<Timestamp>;

/// `chrono`'s `FromStr` for `DateTime<Utc>`: the instant that `text` spells in
/// (a relaxed form of) RFC 3339, as `timestamp()` and
/// `timestamp_subsec_nanos()` give it. The contract only names the result.
#[verifier::external_body]
fn read_instant(text: &str) -> (r: Option<Timestamp>)
    ensures
        r == parsed_timestamp(text@),
{
    match text.parse::<chrono::DateTime<chrono::Utc>>() {
        Ok(at) => Some(Timestamp { seconds: at.timestamp(), nanos: at.timestamp_subsec_nanos() }),
        Err(_) => None,
    }
}

/// Reads the timestamp of a log row.
pub fn parse_timestamp(text: &str) -> (r: Result<Timestamp, DecodeError>)
    ensures
        r == match parsed_timestamp(text@) {
            Some(instant) => Ok::<Timestamp, DecodeError>(instant),
            None => Err::<Timestamp, DecodeError>(DecodeError::Timestamp),
        },
{
    match read_instant(text) {
        Some(instant) => Ok(instant),
        None => Err(DecodeError::Timestamp),
    }
}

/// The seconds of the first instant that `chrono` holds:
/// -262143-01-01T00:00:00Z.
pub const FIRST_SECOND: i64 = -8_334_601_228_800;

/// The seconds of the last second that `chrono` holds:
/// +262142-12-31T23:59:59Z.
pub const LAST_SECOND: i64 = 8_210_266_876_799;

impl Timestamp {
    /// The instant lies in the years that `chrono` holds.
    pub open spec fn in_range(self) -> bool {
        FIRST_SECOND <= self.seconds <= LAST_SECOND
    }

    /// The instant lies in no leap second.
    pub open spec fn ordinary(self) -> bool {
        self.nanos < NANOS_PER_SECOND
    }
}

/// The time from `start` to `end` in whole seconds, negative where `end` is
/// the earlier; a part of a second is dropped.
pub open spec fn whole_seconds(start: Timestamp, end: Timestamp) -> int {
    let nanos = (end.seconds - start.seconds) * (NANOS_PER_SECOND as int) + (end.nanos
        - start.nanos);
    if nanos >= 0 {
        nanos / (NANOS_PER_SECOND as int)
    } else {
        -((-nanos) / (NANOS_PER_SECOND as int))
    }
}

/// The whole seconds that `chrono` counts from `start` to `end` where one of
/// the two lies in a leap second; `None` where that one is no instant that
/// `chrono` can hold.
pub uninterp spec fn leap_seconds_between(start: Timestamp, end: Timestamp) -> Option<i64>;

/// The whole seconds from `start` to `end` as `chrono` counts them: none
/// where one of the two lies outside the years that `chrono` holds; between
/// instants outside leap seconds, the time from the one to the other with
/// the part of a second dropped.
pub open spec fn seconds_between(start: Timestamp, end: Timestamp) -> Option<i64> {
    if !start.in_range() || !end.in_range() {
        None
    } else if start.ordinary() && end.ordinary() {
        Some(whole_seconds(start, end) as i64)
    } else {
        leap_seconds_between(start, end)
    }
}

/// `DateTime::signed_duration_since` and `TimeDelta::num_seconds`, on the
/// instants that `DateTime::from_timestamp` makes of the two arguments.
/// `from_timestamp` makes none of seconds outside [`FIRST_SECOND`] to
/// [`LAST_SECOND`]. Outside leap seconds the duration is the difference of
/// the seconds and of the nanoseconds, and `num_seconds` drops its part of a
/// second toward zero. Where a leap second is in play the contract only names
/// the result.
#[verifier::external_body]
pub(crate) fn elapsed_seconds(start: Timestamp, end: Timestamp) -> (r: Option<i64>)
    ensures
        r == seconds_between(start, end),
        start.in_range() && end.in_range() && !(start.ordinary() && end.ordinary()) ==> r
            == leap_seconds_between(start, end),
{
    let from = chrono::DateTime::from_timestamp(start.seconds, start.nanos)?;
    let to = chrono::DateTime::from_timestamp(end.seconds, end.nanos)?;
    Some(to.signed_duration_since(from).num_seconds())
}

} // verus!
