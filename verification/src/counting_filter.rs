//! The deterministic counting filter: denies the first `max` encounters of a
//! fingerprint and passes thereafter, until the fingerprint is reset.

use vstd::prelude::*;
use crate::counter::CounterMap;
use crate::counter::counter_get;
use crate::counter::counter_set;
use crate::counter::counts_of;
use crate::counter::empty_counts;
use crate::counter::new_counter_map;
use crate::filter::Filter;
use crate::filter::FilterView;
use crate::filter::acc_at;
use crate::filter::counting_cfg;
use crate::filter::filter_may_return;
use crate::filter::filter_reset;
use crate::filter::filter_step;
use crate::filter_outcome::FilterOutcome;

verus! {

/// A filter that emits `failure_mode` for the first `max` encounters of each
/// fingerprint and `Passed` from then on.  `max = 0` never denies.
pub struct CountingFilter {
    map: CounterMap,
    max: u64,
    failure_mode: FilterOutcome,
}

/// The state of a counting filter no fingerprint has encountered yet.
pub open spec fn fresh_counting(max: u64, failure_mode: FilterOutcome) -> FilterView {
    FilterView::Counting { counts: empty_counts(), max, failure_mode }
}

impl CountingFilter {
    /// A fresh counting filter with threshold `max`; every fingerprint
    /// starts with an attempt count of zero.
    pub fn new(max: u64, failure_mode: FilterOutcome) -> (r: Self)
        ensures
            r.fview() == fresh_counting(max, failure_mode),
    {
        Self { map: new_counter_map(), max, failure_mode }
    }
}

/// The state a filter is left in by `n` consecutive `filter(fp)` calls.
pub open spec fn observe_n(v: FilterView, fp: u64, n: nat) -> FilterView
    decreases n,
{
    if n == 0 {
        v
    } else {
        filter_step(observe_n(v, fp, (n - 1) as nat), fp)
    }
}

/// Starting from a fresh counting filter with threshold `max`, the counter
/// of `fp` after `n` calls is `n` capped at `max`, and the next call is
/// forced to return the failure mode while `n` is under the threshold and
/// `Passed` from the threshold on.  So the first `max` calls all deny, and
/// every later call passes, until the fingerprint is reset.
pub proof fn lemma_counting_progression(max: u64, failure_mode: FilterOutcome, fp: u64, n: nat)
    ensures
        acc_at(observe_n(fresh_counting(max, failure_mode), fp, n), fp) == if n < max {
            n as u64
        } else {
            max
        },
        forall|o: FilterOutcome|
            filter_may_return(observe_n(fresh_counting(max, failure_mode), fp, n), fp, o)
                <==> o == (if n < max {
                failure_mode
            } else {
                FilterOutcome::Passed
            }),
    decreases n,
{
    if n > 0 {
        lemma_counting_progression(max, failure_mode, fp, (n - 1) as nat);
        lemma_observe_preserves_counting(fresh_counting(max, failure_mode), fp, (n - 1) as nat);
    }
}

/// Iterated calls keep a counting filter a counting filter, with the
/// threshold and failure mode it was built with.
pub proof fn lemma_observe_preserves_counting(v: FilterView, fp: u64, n: nat)
    requires
        v is Counting,
    ensures
        counting_cfg(observe_n(v, fp, n)) == counting_cfg(v),
    decreases n,
{
    if n > 0 {
        lemma_observe_preserves_counting(v, fp, (n - 1) as nat);
    }
}

/// A reset restores the state that denies on the very next call, whenever
/// the threshold is at least one.
pub proof fn lemma_reset_restores_denial(
    counts: Map<u64, u64>,
    max: u64,
    failure_mode: FilterOutcome,
    fp: u64,
    o: FilterOutcome,
)
    requires
        max >= 1,
    ensures
        ({
            let v = FilterView::Counting { counts, max, failure_mode };
            filter_may_return(filter_reset(v, fp), fp, o) <==> o == failure_mode
        }),
{
}

impl Filter for CountingFilter {
    closed spec fn fview(&self) -> FilterView {
        FilterView::Counting {
            counts: counts_of(self.map),
            max: self.max,
            failure_mode: self.failure_mode,
        }
    }

    fn filter(&mut self, request_hash: u64) -> (outcome: FilterOutcome)
        ensures
            final(self).fview() == filter_step(old(self).fview(), request_hash),
            filter_may_return(old(self).fview(), request_hash, outcome),
    {
        let count = match counter_get(&self.map, request_hash) {
            Some(c) => c,
            None => 0,
        };
        if count >= self.max {
            FilterOutcome::Passed
        } else {
            counter_set(&mut self.map, request_hash, count + 1);
            self.failure_mode
        }
    }

    fn reset(&mut self, request_hash: u64)
        ensures
            final(self).fview() == filter_reset(old(self).fview(), request_hash),
    {
        counter_set(&mut self.map, request_hash, 0);
    }
}

} // verus!
