//! Intervals between consecutive matches.

use crate::parser::{match_views, LogMatch, LogMatchView};
use crate::text::{append_decimal, decimal};
use crate::time::{nanos_between, Duration};
use vstd::prelude::*;
use vstd::string::*;

verus! {

/// The time that passed between two consecutive matches.
#[derive(Debug)]
pub struct Interval {
    /// Pattern of the earlier match.
    pub from_pattern: String,
    /// Pattern of the later match.
    pub to_pattern: String,
    /// Time from the earlier match to the later one; negative where the
    /// timestamps run backwards.
    pub duration: Duration,
}

/// What an [`Interval`] stands for.
pub struct IntervalView {
    pub from_pattern: Seq<char>,
    pub to_pattern: Seq<char>,
    /// Length in nanoseconds.
    pub duration: int,
}

impl View for Interval {
    type V = IntervalView;

    open spec fn view(&self) -> IntervalView {
        IntervalView {
            from_pattern: self.from_pattern@,
            to_pattern: self.to_pattern@,
            duration: self.duration@,
        }
    }
}

/// The interval from the match `from` to the match `to`.
pub open spec fn interval_between(from: LogMatchView, to: LogMatchView) -> IntervalView {
    IntervalView {
        from_pattern: from.pattern,
        to_pattern: to.pattern,
        duration: nanos_between(from.timestamp, to.timestamp),
    }
}

/// The intervals of a sequence of matches: one for each pair of neighbours,
/// in the order of the matches.
pub open spec fn intervals_of(matches: Seq<LogMatchView>) -> Seq<IntervalView> {
    Seq::new(
        if matches.len() == 0 {
            0
        } else {
            (matches.len() - 1) as nat
        },
        |i: int| interval_between(matches[i], matches[i + 1]),
    )
}

/// The views of a sequence of intervals.
pub open spec fn interval_views(intervals: Seq<Interval>) -> Seq<IntervalView> {
    Seq::new(intervals.len(), |i: int| intervals[i]@)
}

/// The text of a duration of `nanos` nanoseconds: a minus sign where it is
/// negative, then the largest units that its length reaches.
pub open spec fn duration_text(nanos: int) -> Seq<char> {
    let magnitude = if nanos < 0 {
        -nanos
    } else {
        nanos
    };
    let total_seconds = magnitude / 1_000_000_000;
    let hours = (total_seconds / 3600) as nat;
    let minutes = ((total_seconds % 3600) / 60) as nat;
    let seconds = (total_seconds % 60) as nat;
    let millis = ((magnitude / 1_000_000) % 1000) as nat;
    let sign = if nanos < 0 {
        "-"@
    } else {
        Seq::<char>::empty()
    };
    let length = if hours > 0 {
        decimal(hours) + "h "@ + decimal(minutes) + "m "@ + decimal(seconds) + "s"@
    } else if minutes > 0 {
        decimal(minutes) + "m "@ + decimal(seconds) + "s"@
    } else if seconds > 0 {
        decimal(seconds) + "s "@ + decimal(millis) + "ms"@
    } else {
        decimal(millis) + "ms"@
    };
    sign + length
}

/// The one-line text of an interval.
pub open spec fn interval_text(interval: IntervalView) -> Seq<char> {
    interval.from_pattern + " :::: "@ + duration_text(interval.duration) + " ::::> "@
        + interval.to_pattern
}

impl Interval {
    /// The interval as one line of text.
    pub fn format(&self) -> (text: String)
        ensures
            text@ == interval_text(self@),
    {
        let duration_str = self.format_duration();
        let mut text = self.from_pattern.clone();
        text.append(" :::: ");
        text.append(duration_str.as_str());
        text.append(" ::::> ");
        text.append(self.to_pattern.as_str());
        text
    }

    /// The duration of the interval as text.
    pub fn format_duration(&self) -> (text: String)
        ensures
            text@ == duration_text(self.duration@),
    {
        format_duration(&self.duration)
    }
}

/// Computes the intervals between consecutive matches.
pub struct Analyzer;

impl Analyzer {
    /// Analyze log matches and find intervals between consecutive pattern matches
    pub fn analyze(matches: Vec<LogMatch>) -> (intervals: Vec<Interval>)
        ensures
            interval_views(intervals@) == intervals_of(match_views(matches@)),
            matches@.len() <= 1 ==> intervals@.len() == 0,
            matches@.len() >= 1 ==> intervals@.len() == matches@.len() - 1,
            forall|i: int|
                0 <= i < intervals@.len() ==> (#[trigger] intervals@[i])@ == interval_between(
                    matches@[i]@,
                    matches@[i + 1]@,
                ),
    {
        let mut intervals: Vec<Interval> = Vec::new();
        if matches.len() == 0 {
            return intervals;
        }
        let mut i: usize = 0;
        while i < matches.len() - 1
            invariant
                matches.len() > 0,
                i <= matches.len() - 1,
                intervals.len() == i,
                forall|k: int|
                    0 <= k < i ==> (#[trigger] intervals[k])@ == interval_between(
                        matches[k]@,
                        matches[k + 1]@,
                    ),
            decreases matches.len() - i,
        {
            let from = &matches[i];
            let to = &matches[i + 1];
            let duration = to.timestamp.signed_duration_since(&from.timestamp);
            intervals.push(
                Interval {
                    from_pattern: from.pattern.clone(),
                    to_pattern: to.pattern.clone(),
                    duration,
                },
            );
            i += 1;
        }
        intervals
    }
}

/// Format duration in a human-readable way
pub fn format_duration(duration: &Duration) -> (text: String)
    ensures
        text@ == duration_text(duration@),
{
    let total_seconds = duration.num_seconds();
    let total_millis = duration.num_milliseconds();
    let abs_seconds: u64 = if total_seconds < 0 {
        (-total_seconds) as u64
    } else {
        total_seconds as u64
    };
    let abs_millis: u64 = if total_millis < 0 {
        (-total_millis) as u64
    } else {
        total_millis as u64
    };
    let hours = abs_seconds / 3600;
    let minutes = (abs_seconds % 3600) / 60;
    let seconds = abs_seconds % 60;
    let millis = abs_millis % 1000;

    let mut text = String::new();
    if duration.is_negative() {
        text.append("-");
    }
    if hours > 0 {
        append_decimal(&mut text, hours);
        text.append("h ");
        append_decimal(&mut text, minutes);
        text.append("m ");
        append_decimal(&mut text, seconds);
        text.append("s");
    } else if minutes > 0 {
        append_decimal(&mut text, minutes);
        text.append("m ");
        append_decimal(&mut text, seconds);
        text.append("s");
    } else if seconds > 0 {
        append_decimal(&mut text, seconds);
        text.append("s ");
        append_decimal(&mut text, millis);
        text.append("ms");
    } else {
        append_decimal(&mut text, millis);
        text.append("ms");
    }
    text
}

/// A duration that runs backwards is written as the same length forwards,
/// with a minus sign before it.
pub proof fn lemma_negative_duration_text(nanos: int)
    requires
        nanos > 0,
    ensures
        duration_text(-nanos) == "-"@ + duration_text(nanos),
{
}

/// There is one interval less than there are matches, and none where there
/// are no matches; interval `i` leads from match `i` to match `i + 1`.
pub proof fn lemma_intervals_link_neighbours(matches: Seq<LogMatchView>)
    ensures
        matches.len() <= 1 ==> intervals_of(matches).len() == 0,
        matches.len() >= 1 ==> intervals_of(matches).len() == matches.len() - 1,
        forall|i: int|
            0 <= i < intervals_of(matches).len() ==> #[trigger] intervals_of(matches)[i]
                == interval_between(matches[i], matches[i + 1]),
{
}

} // verus!
