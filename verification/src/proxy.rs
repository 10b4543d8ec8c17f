//! The two-phase proxy orchestrator: computes the fingerprint once per unit
//! of work, drives the request-phase chain, drives the response-phase chain
//! against the same fingerprint, and resets every filter only when both
//! phases passed.

use vstd::prelude::*;
use crate::chain::AnyFilter;
use crate::chain::chain_views;
use crate::chain::evaluate;
use crate::chain::evaluate_post;
use crate::chain::evaluate_stopped_at;
use crate::chain::reset_all;
use crate::chain::reset_views;
use crate::chain::step_views;
use crate::error::ProxyError;
use crate::filter::FilterView;
use crate::filter::acc_at;
use crate::filter::filter_step;
use crate::filter::lemma_reset_zeroes;
use crate::filter_outcome::FilterOutcome;
use crate::filter_outcome::LogColour;
use crate::fingerprint::fingerprint;
use crate::fingerprint::ip_view;
use crate::fingerprint::spec_fingerprint;

verus! {

/// How one whole request/response cycle ended: rejected before the upstream
/// was contacted, rejected after the upstream had answered, or forwarded to
/// the client untouched.
#[derive(Copy, Clone, Debug, PartialEq, Eq, Structural)]
pub enum ProxyOutcome {
    RequestDropped,
    ResponseDropped,
    Forwarded,
}

impl ProxyOutcome {
    /// The display label of this cycle outcome.
    pub open spec fn spec_label(self) -> Seq<char> {
        match self {
            ProxyOutcome::RequestDropped => "REQUEST DROPPED"@,
            ProxyOutcome::ResponseDropped => "RESPONSE DROPPED"@,
            ProxyOutcome::Forwarded => "FORWARDED"@,
        }
    }

    /// The severity colour of this cycle outcome.
    pub open spec fn spec_colour(self) -> LogColour {
        match self {
            ProxyOutcome::RequestDropped => LogColour::Red,
            ProxyOutcome::ResponseDropped => LogColour::Yellow,
            ProxyOutcome::Forwarded => LogColour::Green,
        }
    }

    /// Human-readable label for the log line of a completed cycle.
    pub fn label(&self) -> (r: &'static str)
        ensures
            r@ == self.spec_label(),
    {
        match self {
            ProxyOutcome::RequestDropped => "REQUEST DROPPED",
            ProxyOutcome::ResponseDropped => "RESPONSE DROPPED",
            ProxyOutcome::Forwarded => "FORWARDED",
        }
    }

    /// The colour tag a renderer should use for this cycle outcome.
    pub fn get_colour(&self) -> (c: LogColour)
        ensures
            c == self.spec_colour(),
    {
        match self {
            ProxyOutcome::RequestDropped => LogColour::Red,
            ProxyOutcome::ResponseDropped => LogColour::Yellow,
            ProxyOutcome::Forwarded => LogColour::Green,
        }
    }
}

/// How the cycle proceeds after the request phase: any denial — even a
/// response-flavoured one surfaced by a misconfigured request-phase filter —
/// rejects the request on the spot, and a pass hands the request on to the
/// upstream.
pub fn request_verdict(outcome: FilterOutcome) -> (r: Option<ProxyOutcome>)
    ensures
        r == if outcome == FilterOutcome::Passed {
            None::<ProxyOutcome>
        } else {
            Some(ProxyOutcome::RequestDropped)
        },
{
    if matches!(outcome, FilterOutcome::Passed) {
        None
    } else {
        Some(ProxyOutcome::RequestDropped)
    }
}

/// How the cycle ends after the response phase: a pass completes the cycle
/// and forwards the response; any denial fails it.
pub fn response_verdict(outcome: FilterOutcome) -> (r: ProxyOutcome)
    ensures
        r == if outcome == FilterOutcome::Passed {
            ProxyOutcome::Forwarded
        } else {
            ProxyOutcome::ResponseDropped
        },
{
    if matches!(outcome, FilterOutcome::Passed) {
        ProxyOutcome::Forwarded
    } else {
        ProxyOutcome::ResponseDropped
    }
}

/// Per-unit-of-work state threaded through the two callback phases: the
/// fingerprint, computed once at the start of the request phase and read
/// again in the response phase.  (The scratch buffer for the log line stays
/// with the logging collaborator.)
pub struct RequestContext {
    hash: Option<u64>,
}

impl RequestContext {
    /// The fingerprint recorded for this unit of work, if the request phase
    /// has run.
    pub closed spec fn spec_hash(&self) -> Option<u64> {
        self.hash
    }
}

/// What `response_phase` guarantees for the two chains once a fingerprint
/// was recorded.  On a full pass, every response filter passed and took its
/// step, and then both chains were reset for this fingerprint — the only
/// reset trigger in the system.  On a denial, the response chain stepped up
/// to the denying filter and nothing at all was reset.
pub open spec fn response_phase_post(
    req_pre: Seq<FilterView>,
    resp_pre: Seq<FilterView>,
    req_post: Seq<FilterView>,
    resp_post: Seq<FilterView>,
    fp: u64,
    outcome: FilterOutcome,
) -> bool {
    if outcome == FilterOutcome::Passed {
        &&& evaluate_post(resp_pre, step_views(resp_pre, fp), fp, FilterOutcome::Passed)
        &&& resp_post == reset_views(step_views(resp_pre, fp), fp)
        &&& req_post == reset_views(req_pre, fp)
    } else {
        &&& evaluate_post(resp_pre, resp_post, fp, outcome)
        &&& req_post == req_pre
    }
}

/// After a cycle that completed, every filter of both chains keeps its
/// initial counter — zero — for that cycle's fingerprint: the reset is full,
/// across both chains.
pub proof fn lemma_completed_cycle_resets(
    req_pre: Seq<FilterView>,
    resp_pre: Seq<FilterView>,
    req_post: Seq<FilterView>,
    resp_post: Seq<FilterView>,
    fp: u64,
)
    requires
        response_phase_post(req_pre, resp_pre, req_post, resp_post, fp, FilterOutcome::Passed),
    ensures
        req_post.len() == req_pre.len(),
        resp_post.len() == resp_pre.len(),
        forall|j: int| 0 <= j < req_post.len() ==> acc_at(#[trigger] req_post[j], fp) == 0,
        forall|j: int| 0 <= j < resp_post.len() ==> acc_at(#[trigger] resp_post[j], fp) == 0,
{
    assert forall|j: int| 0 <= j < req_post.len() implies acc_at(#[trigger] req_post[j], fp)
        == 0 by {
        lemma_reset_zeroes(req_pre[j], fp);
    }
    assert forall|j: int| 0 <= j < resp_post.len() implies acc_at(#[trigger] resp_post[j], fp)
        == 0 by {
        lemma_reset_zeroes(filter_step(resp_pre[j], fp), fp);
    }
}

/// After a cycle that was rejected in the response phase, the reset step
/// runs on no filter at all: the request chain is exactly as the request
/// phase left it, and the response chain changed only through the `filter`
/// calls themselves.
pub proof fn lemma_rejected_cycle_skips_reset(
    req_pre: Seq<FilterView>,
    resp_pre: Seq<FilterView>,
    req_post: Seq<FilterView>,
    resp_post: Seq<FilterView>,
    fp: u64,
    outcome: FilterOutcome,
)
    requires
        outcome != FilterOutcome::Passed,
        response_phase_post(req_pre, resp_pre, req_post, resp_post, fp, outcome),
    ensures
        req_post == req_pre,
        evaluate_post(resp_pre, resp_post, fp, outcome),
{
}

/// The decision core of the flaky proxy: the fingerprint seed and the two
/// filter chains, one evaluated per phase.
pub struct FlakyProxy {
    seed: u64,
    request_filters: Vec<AnyFilter>,
    response_filters: Vec<AnyFilter>,
}

impl FlakyProxy {
    /// The process-wide fingerprint seed this proxy was built with.
    pub closed spec fn spec_seed(&self) -> u64 {
        self.seed
    }

    /// The abstract states of the request-phase chain.
    pub closed spec fn req_views(&self) -> Seq<FilterView> {
        chain_views(self.request_filters@)
    }

    /// The abstract states of the response-phase chain.
    pub closed spec fn resp_views(&self) -> Seq<FilterView> {
        chain_views(self.response_filters@)
    }

    /// A proxy core over the given seed and chains.
    pub fn new(
        seed: u64,
        request_filters: Vec<AnyFilter>,
        response_filters: Vec<AnyFilter>,
    ) -> (r: Self)
        ensures
            r.spec_seed() == seed,
            r.req_views() == chain_views(request_filters@),
            r.resp_views() == chain_views(response_filters@),
    {
        Self { seed, request_filters, response_filters }
    }

    /// A fresh context for one request/response unit of work; no fingerprint
    /// has been recorded yet.
    pub fn new_ctx(&self) -> (ctx: RequestContext)
        ensures
            ctx.spec_hash() is None,
    {
        RequestContext { hash: None }
    }

    /// Request phase: compute the fingerprint once, record it in the
    /// context, and run the request-phase chain against it.  The
    /// response-phase chain is untouched.  A non-`Passed` outcome means the
    /// caller must answer the client locally and never contact the upstream.
    pub fn request_phase(
        &mut self,
        ctx: &mut RequestContext,
        method: &[u8],
        uri: &[u8],
        client_ip: Option<&[u8]>,
    ) -> (outcome: FilterOutcome)
        ensures
            final(self).spec_seed() == old(self).spec_seed(),
            final(self).resp_views() == old(self).resp_views(),
            final(ctx).spec_hash() == Some(
                spec_fingerprint(old(self).spec_seed(), method@, uri@, ip_view(client_ip)),
            ),
            evaluate_post(
                old(self).req_views(),
                final(self).req_views(),
                spec_fingerprint(old(self).spec_seed(), method@, uri@, ip_view(client_ip)),
                outcome,
            ),
    {
        let request_hash = fingerprint(self.seed, method, uri, client_ip);
        ctx.hash = Some(request_hash);
        evaluate(&mut self.request_filters, request_hash)
    }

    /// Response phase: run the response-phase chain against the fingerprint
    /// recorded in the context.  On a pass the cycle is complete and both
    /// chains are reset for this fingerprint; on a denial nothing is reset.
    /// A context without a fingerprint is a state-machine violation and is
    /// reported as such, with no filter state touched.
    pub fn response_phase(&mut self, ctx: &RequestContext) -> (r: Result<FilterOutcome, ProxyError>)
        ensures
            final(self).spec_seed() == old(self).spec_seed(),
            (r is Err) <==> (ctx.spec_hash() is None),
            r is Err ==> r->Err_0 == ProxyError::InternalStateViolation,
            r is Err ==> final(self).req_views() == old(self).req_views()
                && final(self).resp_views() == old(self).resp_views(),
            r is Ok ==> response_phase_post(
                old(self).req_views(),
                old(self).resp_views(),
                final(self).req_views(),
                final(self).resp_views(),
                ctx.spec_hash()->Some_0,
                r->Ok_0,
            ),
    {
        let request_hash = match ctx.hash {
            Some(h) => h,
            None => {
                return Err(ProxyError::InternalStateViolation);
            },
        };
        let ghost resp_pre = self.resp_views();
        let outcome = evaluate(&mut self.response_filters, request_hash);
        let ghost mid = self.resp_views();
        if matches!(outcome, FilterOutcome::Passed) {
            proof {
                let i = choose|i: int|
                    evaluate_stopped_at(resp_pre, mid, request_hash, outcome, i);
                assert(evaluate_stopped_at(resp_pre, mid, request_hash, outcome, i));
                assert(mid =~= step_views(resp_pre, request_hash));
            }
            reset_all(&mut self.request_filters, request_hash);
            reset_all(&mut self.response_filters, request_hash);
            Ok(FilterOutcome::Passed)
        } else {
            Ok(outcome)
        }
    }
}

} // verus!
