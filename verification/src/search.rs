//! The first of several candidates, tried in order.

use vstd::prelude::*;

verus! {

/// The lowest index at which `flags` holds `true`.
pub open spec fn first_true(flags: Seq<bool>) -> Option<int>
    decreases flags.len(),
{
    if flags.len() == 0 {
        None
    } else if flags[0] {
        Some(0)
    } else {
        match first_true(flags.drop_first()) {
            Some(i) => Some(i + 1),
            None => None,
        }
    }
}

/// [`first_true`] gives an index that holds `true` and has only `false`
/// before it; it gives none only where every index holds `false`.
pub proof fn lemma_first_true_least(flags: Seq<bool>)
    ensures
        match first_true(flags) {
            Some(i) => 0 <= i < flags.len() && flags[i] && forall|j: int| 0 <= j < i ==> !flags[j],
            None => forall|j: int| 0 <= j < flags.len() ==> !flags[j],
        },
    decreases flags.len(),
{
    if flags.len() > 0 && !flags[0] {
        let rest = flags.drop_first();
        lemma_first_true_least(rest);
        match first_true(rest) {
            Some(i) => {
                assert forall|j: int| 0 <= j < i + 1 implies !flags[j] by {
                    if j > 0 {
                        assert(flags[j] == rest[j - 1]);
                    }
                }
            },
            None => {
                assert forall|j: int| 0 <= j < flags.len() implies !flags[j] by {
                    if j > 0 {
                        assert(flags[j] == rest[j - 1]);
                    }
                }
            },
        }
    }
}

/// An index that holds `true` and has only `false` before it is the one that
/// [`first_true`] gives.
pub proof fn lemma_first_true_at(flags: Seq<bool>, i: int)
    requires
        0 <= i < flags.len(),
        flags[i],
        forall|j: int| 0 <= j < i ==> !flags[j],
    ensures
        first_true(flags) == Some(i),
{
    lemma_first_true_least(flags);
}

/// Where every index holds `false`, [`first_true`] gives none.
pub proof fn lemma_first_true_none(flags: Seq<bool>)
    requires
        forall|j: int| 0 <= j < flags.len() ==> !flags[j],
    ensures
        first_true(flags) is None,
{
    lemma_first_true_least(flags);
}

} // verus!
