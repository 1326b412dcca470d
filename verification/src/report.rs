//! What a run has to tell, judged by the number of matches it found.

use crate::analyzer::intervals_of;
use crate::parser::LogMatchView;
use vstd::prelude::*;

verus! {

/// How a run ended.
#[derive(Debug, Clone, Copy, PartialEq, Eq, Structural)]
pub enum Finding {
    /// Automatic detection found no line with a timestamp and a pattern:
    /// the run has failed.
    NothingDetected,
    /// No line matched under an explicit configuration: there is nothing to
    /// report, and that is no failure.
    NoMatches,
    /// There is one match, and so no interval.
    NotEnoughMatches,
    /// There are intervals to write out.
    Intervals,
}

/// What `match_count` matches amount to.
pub open spec fn finding(match_count: nat, is_auto_detect: bool) -> Finding {
    if match_count == 0 {
        if is_auto_detect {
            Finding::NothingDetected
        } else {
            Finding::NoMatches
        }
    } else if match_count == 1 {
        Finding::NotEnoughMatches
    } else {
        Finding::Intervals
    }
}

/// Judges a run by the number of its matches.
pub fn assess(match_count: usize, is_auto_detect: bool) -> (found: Finding)
    ensures
        found == finding(match_count as nat, is_auto_detect),
{
    if match_count == 0 {
        if is_auto_detect {
            Finding::NothingDetected
        } else {
            Finding::NoMatches
        }
    } else if match_count == 1 {
        Finding::NotEnoughMatches
    } else {
        Finding::Intervals
    }
}

/// A run has intervals to write out exactly where its matches yield at least
/// one interval.
pub proof fn lemma_intervals_found(matches: Seq<LogMatchView>, is_auto_detect: bool)
    ensures
        finding(matches.len(), is_auto_detect) == Finding::Intervals <==> intervals_of(
            matches,
        ).len() > 0,
{
}

} // verus!
