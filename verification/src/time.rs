//! Timestamps without a time zone, and the signed time between two of them.
//!
//! Reading a timestamp from text and subtracting two timestamps are done by
//! `chrono`. The library keeps what `chrono` hands back as plain numbers: a
//! [`Timestamp`] is a count of seconds since 1970-01-01 00:00:00 with the
//! nanoseconds past that second, a [`Duration`] a signed count of
//! nanoseconds.

use chrono::{DateTime, NaiveDateTime};
use vstd::prelude::*;

verus! {

/// Seconds of the earliest timestamp, midnight of 1 January of the year -262143.
pub const MIN_SECONDS: i64 = -8_334_601_228_800;

/// Seconds of the latest timestamp, the last second of the year 262142.
pub const MAX_SECONDS: i64 = 8_210_266_876_799;

/// The longest duration in either direction, in nanoseconds: `i64::MAX`
/// milliseconds.
pub const MAX_DURATION_NANOS: i128 = 9_223_372_036_854_775_807_000_000;

/// A point on the naive time line.
pub struct Moment {
    /// Whole seconds since 1970-01-01 00:00:00, leap seconds not counted.
    pub seconds: int,
    /// Nanoseconds past that second. A value of one second or more stands
    /// for a leap second that follows second 59 of a minute.
    pub nanos: int,
}

impl Moment {
    /// The moments that a [`Timestamp`] can hold.
    pub open spec fn representable(self) -> bool {
        &&& MIN_SECONDS <= self.seconds <= MAX_SECONDS
        &&& 0 <= self.nanos < 2_000_000_000
        &&& self.nanos >= 1_000_000_000 ==> self.seconds % 60 == 59
    }

    /// Seconds since the midnight before this moment.
    pub open spec fn second_of_day(self) -> int {
        self.seconds % 86_400
    }

    /// Whether this moment lies within a leap second.
    pub open spec fn in_leap_second(self) -> bool {
        self.nanos >= 1_000_000_000
    }
}

/// The correction, in seconds, that subtraction makes for a leap second: the
/// time between two moments is reckoned as if no leap second had ever
/// happened, except that a moment which itself lies within a leap second
/// counts that one second when the other moment is on the far side of it by
/// the clock.
pub open spec fn leap_correction(from: Moment, to: Moment) -> int {
    if to.second_of_day() > from.second_of_day() && from.in_leap_second() {
        1
    } else if to.second_of_day() < from.second_of_day() && to.in_leap_second() {
        -1
    } else {
        0
    }
}

/// Nanoseconds from `from` to `to`; negative where `to` is the earlier one.
pub open spec fn nanos_between(from: Moment, to: Moment) -> int {
    (to.seconds - from.seconds + leap_correction(from, to)) * 1_000_000_000 + (to.nanos
        - from.nanos)
}

/// What `chrono` reads from `text` under the format string `format`: the
/// moment, or `None` where it rejects the text or the format.
pub uninterp spec fn timestamp_parse(text: Seq<char>, format: Seq<char>) -> Option<Moment>;

/// `value / unit`, rounded toward zero.
pub open spec fn truncated_quotient(value: int, unit: int) -> int
    recommends
        unit > 0,
{
    if value >= 0 {
        value / unit
    } else {
        -((-value) / unit)
    }
}

/// `NaiveDateTime::parse_from_str`, with the result taken apart into seconds
/// since 1970 and nanoseconds past the second. The contract names what is
/// read, and claims that it lies within the bounds of
/// [`Moment::representable`]: the parser yields no date outside the calendar
/// of `chrono`, and a leap second only where the text has second 60 of a
/// minute.
#[verifier::external_body]
fn chrono_parse(text: &str, format: &str) -> (r: Option<(i64, u32)>)
    ensures
        match r {
            Some(parts) => {
                let moment = Moment { seconds: parts.0 as int, nanos: parts.1 as int };
                timestamp_parse(text@, format@) == Some(moment) && moment.representable()
            },
            None => timestamp_parse(text@, format@) is None,
        },
{
    let read = NaiveDateTime::parse_from_str(text, format).ok()?.and_utc();
    Some((read.timestamp(), read.timestamp_subsec_nanos()))
}

/// `NaiveDateTime::signed_duration_since`, on timestamps given as seconds and
/// nanoseconds, with the result taken apart into whole seconds and the
/// nanoseconds beyond them, both of the sign of the result. The contract
/// claims that the result is [`nanos_between`] nanoseconds long.
#[verifier::external_body]
fn chrono_elapsed(from_seconds: i64, from_nanos: u32, to_seconds: i64, to_nanos: u32) -> (r: (
    i64,
    i32,
))
    requires
        (Moment { seconds: from_seconds as int, nanos: from_nanos as int }).representable(),
        (Moment { seconds: to_seconds as int, nanos: to_nanos as int }).representable(),
    ensures
        -1_000_000_000 < r.1 < 1_000_000_000,
        r.0 * 1_000_000_000 + r.1 == nanos_between(
            Moment { seconds: from_seconds as int, nanos: from_nanos as int },
            Moment { seconds: to_seconds as int, nanos: to_nanos as int },
        ),
{
    let from = DateTime::from_timestamp(from_seconds, from_nanos).unwrap().naive_utc();
    let to = DateTime::from_timestamp(to_seconds, to_nanos).unwrap().naive_utc();
    let delta = to.signed_duration_since(from);
    (delta.num_seconds(), delta.subsec_nanos())
}

/// A calendar date and time of day without a time zone.
#[derive(Debug, Clone, Copy, PartialEq, Eq, Structural)]
pub struct Timestamp {
    seconds: i64,
    nanos: u32,
}

impl View for Timestamp {
    type V = Moment;

    closed spec fn view(&self) -> Moment {
        Moment { seconds: self.seconds as int, nanos: self.nanos as int }
    }
}

impl Timestamp {
    #[verifier::type_invariant]
    spec fn in_bounds(self) -> bool {
        self@.representable()
    }

    /// The timestamp `seconds` seconds and `nanos` nanoseconds after
    /// 1970-01-01 00:00:00, where such a timestamp exists.
    pub fn new(seconds: i64, nanos: u32) -> (r: Option<Timestamp>)
        ensures
            r is Some <==> (Moment { seconds: seconds as int, nanos: nanos as int }).representable(),
            r matches Some(t) ==> t@ == (Moment { seconds: seconds as int, nanos: nanos as int }),
    {
        if seconds < MIN_SECONDS || seconds > MAX_SECONDS || nanos >= 2_000_000_000 {
            return None;
        }
        // MIN_SECONDS is a whole number of minutes, so the second of the
        // minute can be counted from there without a negative remainder.
        let second_of_minute: i64 = (seconds - MIN_SECONDS) % 60;
        if nanos >= 1_000_000_000 && second_of_minute != 59 {
            return None;
        }
        Some(Timestamp { seconds, nanos })
    }

    /// Reads a timestamp from `text` under the format string `format`.
    pub fn parse_from_str(text: &str, format: &str) -> (r: Option<Timestamp>)
        ensures
            r is Some <==> timestamp_parse(text@, format@) is Some,
            r matches Some(t) ==> timestamp_parse(text@, format@) == Some(t@) && t@.representable(),
    {
        match chrono_parse(text, format) {
            Some(parts) => Some(Timestamp { seconds: parts.0, nanos: parts.1 }),
            None => None,
        }
    }

    /// Whole seconds since 1970-01-01 00:00:00.
    pub fn timestamp(&self) -> (seconds: i64)
        ensures
            seconds == self@.seconds,
    {
        self.seconds
    }

    /// Nanoseconds past the whole second.
    pub fn timestamp_subsec_nanos(&self) -> (nanos: u32)
        ensures
            nanos == self@.nanos,
    {
        self.nanos
    }

    /// The time from `earlier` to `self`; negative where `self` is the
    /// earlier one.
    pub fn signed_duration_since(&self, earlier: &Timestamp) -> (elapsed: Duration)
        ensures
            self@.representable(),
            earlier@.representable(),
            elapsed@ == nanos_between(earlier@, self@),
    {
        proof {
            use_type_invariant(self);
            use_type_invariant(earlier);
        }
        let parts = chrono_elapsed(earlier.seconds, earlier.nanos, self.seconds, self.nanos);
        let whole: i128 = parts.0 as i128 * 1_000_000_000;
        Duration { nanos: whole + parts.1 as i128 }
    }
}

/// A signed length of time with nanosecond precision. Its view is its length
/// in nanoseconds.
#[derive(Debug, Clone, Copy, PartialEq, Eq, Structural)]
pub struct Duration {
    nanos: i128,
}

impl View for Duration {
    type V = int;

    closed spec fn view(&self) -> int {
        self.nanos as int
    }
}

impl Duration {
    #[verifier::type_invariant]
    spec fn in_bounds(self) -> bool {
        -MAX_DURATION_NANOS <= self.nanos <= MAX_DURATION_NANOS
    }

    /// A duration of `seconds` seconds.
    pub fn seconds(seconds: i64) -> (d: Duration)
        requires
            -9_223_372_036_854_775 <= seconds <= 9_223_372_036_854_775,
        ensures
            d@ == seconds * 1_000_000_000,
    {
        Duration { nanos: seconds as i128 * 1_000_000_000 }
    }

    /// A duration of `milliseconds` milliseconds.
    pub fn milliseconds(milliseconds: i64) -> (d: Duration)
        requires
            milliseconds > i64::MIN,
        ensures
            d@ == milliseconds * 1_000_000,
    {
        Duration { nanos: milliseconds as i128 * 1_000_000 }
    }

    /// Whether the duration runs backwards.
    pub fn is_negative(&self) -> (negative: bool)
        ensures
            negative == (self@ < 0),
    {
        self.nanos < 0
    }

    /// The length of the duration without its sign, in nanoseconds.
    fn magnitude(&self) -> (m: u128)
        ensures
            m == if self@ < 0 { -self@ } else { self@ },
            m <= MAX_DURATION_NANOS,
    {
        proof {
            use_type_invariant(self);
        }
        if self.nanos < 0 {
            (-self.nanos) as u128
        } else {
            self.nanos as u128
        }
    }

    /// The number of whole seconds in the duration, rounded toward zero.
    pub fn num_seconds(&self) -> (seconds: i64)
        ensures
            seconds == truncated_quotient(self@, 1_000_000_000),
            -9_223_372_036_854_775 <= seconds <= 9_223_372_036_854_775,
    {
        let whole = (self.magnitude() / 1_000_000_000) as i64;
        if self.nanos < 0 {
            -whole
        } else {
            whole
        }
    }

    /// The number of whole milliseconds in the duration, rounded toward
    /// zero.
    pub fn num_milliseconds(&self) -> (milliseconds: i64)
        ensures
            milliseconds == truncated_quotient(self@, 1_000_000),
            -i64::MAX <= milliseconds <= i64::MAX,
    {
        let whole = (self.magnitude() / 1_000_000) as i64;
        if self.nanos < 0 {
            -whole
        } else {
            whole
        }
    }
}

/// Between two moments of which neither lies within a leap second, the time
/// is the difference of their counts of seconds and nanoseconds.
pub proof fn lemma_plain_subtraction(from: Moment, to: Moment)
    requires
        !from.in_leap_second(),
        !to.in_leap_second(),
    ensures
        nanos_between(from, to) == (to.seconds * 1_000_000_000 + to.nanos) - (from.seconds
            * 1_000_000_000 + from.nanos),
{
}

/// The time from one moment to another is the time back with the opposite
/// sign, and no time passes from a moment to itself.
pub proof fn lemma_subtraction_turns_round(from: Moment, to: Moment)
    ensures
        nanos_between(to, from) == -nanos_between(from, to),
        nanos_between(from, from) == 0,
{
}

/// The time between any two moments that a [`Timestamp`] can hold is within
/// the range of a [`Duration`].
pub proof fn lemma_subtraction_in_range(from: Moment, to: Moment)
    requires
        from.representable(),
        to.representable(),
    ensures
        -MAX_DURATION_NANOS <= nanos_between(from, to) <= MAX_DURATION_NANOS,
{
}

} // verus!
