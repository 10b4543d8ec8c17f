//! Filter chains: an ordered list of filters evaluated with short-circuit
//! semantics, plus the unconditional reset of a whole chain.

use vstd::prelude::*;
use crate::chaos_filter::ChaosFilter;
use crate::counting_filter::CountingFilter;
use crate::filter::Filter;
use crate::filter::FilterView;
use crate::filter::filter_may_return;
use crate::filter::filter_reset;
use crate::filter::filter_step;
use crate::filter_outcome::FilterOutcome;

verus! {

/// The closed set of filter variants a chain can hold.
pub enum AnyFilter {
    Counting(CountingFilter),
    Chaos(ChaosFilter),
}

impl Filter for AnyFilter {
    open spec fn fview(&self) -> FilterView {
        match self {
            AnyFilter::Counting(f) => f.fview(),
            AnyFilter::Chaos(f) => f.fview(),
        }
    }

    fn filter(&mut self, request_hash: u64) -> (outcome: FilterOutcome)
        ensures
            final(self).fview() == filter_step(old(self).fview(), request_hash),
            filter_may_return(old(self).fview(), request_hash, outcome),
    {
        match self {
            AnyFilter::Counting(f) => f.filter(request_hash),
            AnyFilter::Chaos(f) => f.filter(request_hash),
        }
    }

    fn reset(&mut self, request_hash: u64)
        ensures
            final(self).fview() == filter_reset(old(self).fview(), request_hash),
    {
        match self {
            AnyFilter::Counting(f) => f.reset(request_hash),
            AnyFilter::Chaos(f) => f.reset(request_hash),
        }
    }
}

/// The abstract states of the filters of a chain, in chain order.
pub open spec fn chain_views<F: Filter>(chain: Seq<F>) -> Seq<FilterView> {
    Seq::new(chain.len(), |i: int| chain[i].fview())
}

/// Every filter of the chain after one `filter(fp)` call each.
pub open spec fn step_views(pre: Seq<FilterView>, fp: u64) -> Seq<FilterView> {
    Seq::new(pre.len(), |i: int| filter_step(pre[i], fp))
}

/// Every filter of the chain after one `reset(fp)` call each.
pub open spec fn reset_views(pre: Seq<FilterView>, fp: u64) -> Seq<FilterView> {
    Seq::new(pre.len(), |i: int| filter_reset(pre[i], fp))
}

/// Evaluation stopped at position `i`: every filter before `i` returned
/// `Passed` and took its step; when `i` is short of the length, the filter
/// at `i` returned the non-pass `outcome` and took its step, and everything
/// after `i` was never invoked and is untouched.
pub open spec fn evaluate_stopped_at(
    pre: Seq<FilterView>,
    post: Seq<FilterView>,
    fp: u64,
    outcome: FilterOutcome,
    i: int,
) -> bool {
    &&& 0 <= i <= pre.len()
    &&& post.len() == pre.len()
    &&& forall|j: int|
        0 <= j < i ==> filter_may_return(#[trigger] pre[j], fp, FilterOutcome::Passed)
    &&& if i == pre.len() {
        &&& outcome == FilterOutcome::Passed
        &&& forall|j: int| 0 <= j < pre.len() ==> #[trigger] post[j] == filter_step(pre[j], fp)
    } else {
        &&& outcome != FilterOutcome::Passed
        &&& filter_may_return(pre[i], fp, outcome)
        &&& forall|j: int| 0 <= j <= i ==> #[trigger] post[j] == filter_step(pre[j], fp)
        &&& forall|j: int| i < j < pre.len() ==> #[trigger] post[j] == pre[j]
    }
}

/// What `evaluate` promises: the chain went from `pre` to `post` by stopping
/// at the first filter that did not pass, returning `outcome`.
pub open spec fn evaluate_post(
    pre: Seq<FilterView>,
    post: Seq<FilterView>,
    fp: u64,
    outcome: FilterOutcome,
) -> bool {
    exists|i: int| evaluate_stopped_at(pre, post, fp, outcome, i)
}

/// Run the chain in order against one fingerprint, stopping at the first
/// non-pass outcome; filters past the stopping point are not invoked and
/// keep their state.  Returns `Passed` exactly when every filter passed.
pub fn evaluate<F: Filter>(chain: &mut Vec<F>, request_hash: u64) -> (outcome: FilterOutcome)
    ensures
        evaluate_post(
            chain_views(old(chain)@),
            chain_views(final(chain)@),
            request_hash,
            outcome,
        ),
{
    let ghost pre = chain_views(old(chain)@);
    let mut idx: usize = 0;
    while idx < chain.len()
        invariant
            idx <= chain@.len(),
            chain@.len() == old(chain)@.len(),
            pre == chain_views(old(chain)@),
            forall|j: int|
                0 <= j < idx ==> filter_may_return(#[trigger] pre[j], request_hash, FilterOutcome::Passed),
            forall|j: int|
                0 <= j < idx ==> #[trigger] chain@[j].fview() == filter_step(pre[j], request_hash),
            forall|j: int|
                idx <= j < chain@.len() ==> #[trigger] chain@[j].fview() == pre[j],
        decreases chain@.len() - idx,
    {
        let f = &mut chain[idx];
        let outcome = f.filter(request_hash);
        if !matches!(outcome, FilterOutcome::Passed) {
            assert(evaluate_stopped_at(
                pre,
                chain_views(chain@),
                request_hash,
                outcome,
                idx as int,
            ));
            return outcome;
        }
        idx = idx + 1;
    }
    assert(evaluate_stopped_at(
        pre,
        chain_views(chain@),
        request_hash,
        FilterOutcome::Passed,
        pre.len() as int,
    ));
    FilterOutcome::Passed
}

/// Call `reset` on every filter of the chain unconditionally, regardless of
/// order or of any earlier short-circuit: a full reset, never a partial one.
pub fn reset_all<F: Filter>(chain: &mut Vec<F>, request_hash: u64)
    ensures
        chain_views(final(chain)@) == reset_views(chain_views(old(chain)@), request_hash),
{
    let ghost pre = chain_views(old(chain)@);
    let mut idx: usize = 0;
    while idx < chain.len()
        invariant
            idx <= chain@.len(),
            chain@.len() == old(chain)@.len(),
            pre == chain_views(old(chain)@),
            forall|j: int|
                0 <= j < idx ==> #[trigger] chain@[j].fview() == filter_reset(pre[j], request_hash),
            forall|j: int|
                idx <= j < chain@.len() ==> #[trigger] chain@[j].fview() == pre[j],
        decreases chain@.len() - idx,
    {
        let f = &mut chain[idx];
        f.reset(request_hash);
        idx = idx + 1;
    }
    assert(chain_views(chain@) =~= reset_views(pre, request_hash));
}

/// Short-circuiting is observable: when the first filter of a chain cannot
/// pass, evaluation returns that filter's outcome and no later filter's
/// state changes.
pub proof fn lemma_chain_short_circuit(
    pre: Seq<FilterView>,
    post: Seq<FilterView>,
    fp: u64,
    outcome: FilterOutcome,
)
    requires
        pre.len() >= 1,
        !filter_may_return(pre[0], fp, FilterOutcome::Passed),
        evaluate_post(pre, post, fp, outcome),
    ensures
        outcome != FilterOutcome::Passed,
        filter_may_return(pre[0], fp, outcome),
        post[0] == filter_step(pre[0], fp),
        forall|j: int| 1 <= j < pre.len() ==> #[trigger] post[j] == pre[j],
{
    let i = choose|i: int| evaluate_stopped_at(pre, post, fp, outcome, i);
    assert(evaluate_stopped_at(pre, post, fp, outcome, i));
    if i > 0 {
        assert(filter_may_return(pre[0], fp, FilterOutcome::Passed));
    }
}

} // verus!
