//! The filter capability contract: decide an outcome for one encounter of a
//! fingerprint, and reset the accumulated state for a fingerprint.

use vstd::prelude::*;
use crate::filter_outcome::FilterOutcome;

verus! {

/// Abstract state of a filter: the mathematical model every filter contract
/// speaks of.
///
/// A counting filter is a per-fingerprint attempt counter (absent key means
/// zero) together with its threshold and the outcome it emits while under the
/// threshold.  A chaos filter is stateless; its only data is the drop
/// probability, kept as the exact ratio `num / den`.
pub enum FilterView {
    Counting { counts: Map<u64, u64>, max: u64, failure_mode: FilterOutcome },
    Chaos { num: u32, den: u32 },
}

/// The attempt counter a state keeps for `fp`; a fingerprint never seen
/// counts as zero, and a stateless filter always counts zero.
pub open spec fn acc_at(v: FilterView, fp: u64) -> u64 {
    match v {
        FilterView::Counting { counts, .. } => if counts.dom().contains(fp) {
            counts[fp]
        } else {
            0
        },
        FilterView::Chaos { .. } => 0,
    }
}

/// State after one `filter(fp)` call.  A counting filter at or above its
/// threshold freezes (the call is a read); under the threshold it increments
/// the counter for `fp`.  A chaos filter is memoryless.  Note the evolution
/// of the state is deterministic even where the returned outcome is not.
pub open spec fn filter_step(v: FilterView, fp: u64) -> FilterView {
    match v {
        FilterView::Counting { counts, max, failure_mode } => {
            if acc_at(v, fp) >= max {
                v
            } else {
                FilterView::Counting {
                    counts: counts.insert(fp, (acc_at(v, fp) + 1) as u64),
                    max,
                    failure_mode,
                }
            }
        },
        FilterView::Chaos { .. } => v,
    }
}

/// Which outcomes a `filter(fp)` call may return in state `v`.  A counting
/// filter is deterministic: the configured failure mode strictly under the
/// threshold, `Passed` at or above it.  A chaos filter draws fresh
/// randomness, so only the two degenerate rates are pinned down: a zero rate
/// always passes, a full rate never does.
pub open spec fn filter_may_return(v: FilterView, fp: u64, outcome: FilterOutcome) -> bool {
    match v {
        FilterView::Counting { counts, max, failure_mode } => outcome == if acc_at(v, fp) >= max {
            FilterOutcome::Passed
        } else {
            failure_mode
        },
        FilterView::Chaos { num, den } => {
            &&& num == 0 ==> outcome == FilterOutcome::Passed
            &&& (num == den && den > 0) ==> outcome != FilterOutcome::Passed
        },
    }
}

/// State after a `reset(fp)` call: the counter for `fp` goes back to its
/// initial value; a stateless filter is untouched.
pub open spec fn filter_reset(v: FilterView, fp: u64) -> FilterView {
    match v {
        FilterView::Counting { counts, max, failure_mode } => FilterView::Counting {
            counts: counts.insert(fp, 0),
            max,
            failure_mode,
        },
        FilterView::Chaos { .. } => v,
    }
}

/// Every filter variant exposes exactly two operations: decide an outcome
/// for this encounter of a fingerprint (possibly mutating the accumulator
/// for that fingerprint), and reset the accumulator for a fingerprint to its
/// initial value.
pub trait Filter: Sized {
    /// The abstract state this filter currently holds.
    spec fn fview(&self) -> FilterView;

    /// Record one encounter of `request_hash` and return the outcome this
    /// filter contributes for it.
    fn filter(&mut self, request_hash: u64) -> (outcome: FilterOutcome)
        ensures
            final(self).fview() == filter_step(old(self).fview(), request_hash),
            filter_may_return(old(self).fview(), request_hash, outcome),
    ;

    /// Unconditionally restore the accumulator for `request_hash` to its
    /// initial value.  Never fails.
    fn reset(&mut self, request_hash: u64)
        ensures
            final(self).fview() == filter_reset(old(self).fview(), request_hash),
    ;
}

/// The configuration a counting filter was built with; `None` for a
/// stateless filter.
pub open spec fn counting_cfg(v: FilterView) -> Option<(u64, FilterOutcome)> {
    match v {
        FilterView::Counting { counts, max, failure_mode } => Some((max, failure_mode)),
        FilterView::Chaos { .. } => None,
    }
}

/// One operation a cycle performs against one filter: one `filter(fp)` call
/// or one `reset(fp)` call.
pub enum FilterAction {
    Observe(u64),
    Clear(u64),
}

/// The fingerprint an action is about.
pub open spec fn action_fp(a: FilterAction) -> u64 {
    match a {
        FilterAction::Observe(fp) => fp,
        FilterAction::Clear(fp) => fp,
    }
}

/// The state a filter is left in by one action.
pub open spec fn apply_action(v: FilterView, a: FilterAction) -> FilterView {
    match a {
        FilterAction::Observe(fp) => filter_step(v, fp),
        FilterAction::Clear(fp) => filter_reset(v, fp),
    }
}

/// The state a filter is left in by a whole sequence of actions, applied in
/// order.
pub open spec fn apply_actions(v: FilterView, acts: Seq<FilterAction>) -> FilterView
    decreases acts.len(),
{
    if acts.len() == 0 {
        v
    } else {
        apply_action(apply_actions(v, acts.drop_last()), acts.last())
    }
}

/// No action changes what a filter was configured with, and a stateless
/// filter is never changed at all.
pub proof fn lemma_actions_preserve_config(v: FilterView, acts: Seq<FilterAction>)
    ensures
        counting_cfg(apply_actions(v, acts)) == counting_cfg(v),
        (v is Chaos) ==> apply_actions(v, acts) == v,
    decreases acts.len(),
{
    if acts.len() > 0 {
        lemma_actions_preserve_config(v, acts.drop_last());
    }
}

/// The counter a fingerprint keeps after any interleaved sequence of
/// operations equals its counter after just that fingerprint's own
/// operations: concurrent cycles over distinct fingerprints cannot
/// interfere, whatever the interleaving.
pub proof fn lemma_interleaving_independent(v: FilterView, acts: Seq<FilterAction>, fp: u64)
    ensures
        acc_at(apply_actions(v, acts), fp) == acc_at(
            apply_actions(v, acts.filter(|a: FilterAction| action_fp(a) == fp)),
            fp,
        ),
    decreases acts.len(),
{
    reveal(Seq::filter);
    let pred = |a: FilterAction| action_fp(a) == fp;
    if acts.len() > 0 {
        let prefix = acts.drop_last();
        let a = acts.last();
        lemma_interleaving_independent(v, prefix, fp);
        lemma_actions_preserve_config(v, prefix);
        lemma_actions_preserve_config(v, prefix.filter(pred));
        if pred(a) {
            assert(acts.filter(pred) == prefix.filter(pred).push(a));
            assert(prefix.filter(pred).push(a).drop_last() =~= prefix.filter(pred));
            assert(prefix.filter(pred).push(a).last() == a);
        } else {
            assert(acts.filter(pred) == prefix.filter(pred));
            lemma_distinct_fingerprints_independent(apply_actions(v, prefix), action_fp(a), fp);
        }
    }
}

/// One `filter(fp)` call never touches the counter any other fingerprint
/// keeps, and neither does a `reset(fp)` call: distinct fingerprints evolve
/// independently.
pub proof fn lemma_distinct_fingerprints_independent(v: FilterView, fp: u64, other: u64)
    requires
        fp != other,
    ensures
        acc_at(filter_step(v, fp), other) == acc_at(v, other),
        acc_at(filter_reset(v, fp), other) == acc_at(v, other),
{
}

/// A reset always brings the accumulator for that fingerprint back to zero.
pub proof fn lemma_reset_zeroes(v: FilterView, fp: u64)
    ensures
        acc_at(filter_reset(v, fp), fp) == 0,
{
}

} // verus!
