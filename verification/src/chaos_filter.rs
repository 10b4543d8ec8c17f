//! The probabilistic chaos filter: denies a configured fraction of
//! encounters, choosing uniformly between denying as a request and denying
//! as a response, with fresh randomness on every call.

use vstd::prelude::*;
use rand::RngExt;
use rand::distr::Distribution;
use crate::error::ProxyError;
use crate::filter::Filter;
use crate::filter::FilterView;
use crate::filter::filter_may_return;
use crate::filter::filter_reset;
use crate::filter::filter_step;
use crate::filter_outcome::FilterOutcome;

verus! {

/// Drop rates are configured in millionths: a rate of `DROP_RATE_SCALE`
/// drops everything, a rate of `0` drops nothing.
pub const DROP_RATE_SCALE: u32 = 1000000;

/// Relies on rand's Bernoulli distribution: `from_ratio(num, den)` samples
/// `true` with probability `num / den`; with `num == 0` it always samples
/// `false`, and with `num == den > 0` it always samples `true`.
#[verifier::external_body]
fn bernoulli_draw(num: u32, den: u32) -> (r: bool)
    ensures
        num == 0 ==> r == false,
        (num == den && den > 0) ==> r == true,
{
    match rand::distr::Bernoulli::from_ratio(num, den) {
        Ok(d) => d.sample(&mut rand::rng()),
        Err(_) => false,
    }
}

/// Relies on rand's standard distribution over `bool`: a fair coin.
/// Nothing can be promised of the value.
#[verifier::external_body]
fn fair_coin() -> (r: bool) {
    rand::rng().random()
}

/// The (stateless) view of a chaos filter dropping `drop_rate_ppm`
/// millionths of the traffic.
pub open spec fn chaos_view(drop_rate_ppm: i64) -> FilterView {
    FilterView::Chaos { num: drop_rate_ppm as u32, den: DROP_RATE_SCALE }
}

/// A memoryless filter that denies each encounter with probability
/// `drop_num / drop_den`, independently of the fingerprint and of every
/// earlier call.
#[derive(Debug)]
pub struct ChaosFilter {
    drop_num: u32,
    drop_den: u32,
}

impl ChaosFilter {
    /// A chaos filter dropping `drop_rate_ppm` millionths of the traffic.
    /// A rate outside `[0, DROP_RATE_SCALE]` is not a probability and is
    /// rejected at construction, so it can never reach a running proxy.
    pub fn new(drop_rate_ppm: i64) -> (r: Result<Self, ProxyError>)
        ensures
            (r is Ok) <==> (0 <= drop_rate_ppm <= DROP_RATE_SCALE),
            r is Ok ==> r->Ok_0.fview() == chaos_view(drop_rate_ppm),
            r is Err ==> r->Err_0 == ProxyError::ConfigurationError,
    {
        if 0 <= drop_rate_ppm && drop_rate_ppm <= DROP_RATE_SCALE as i64 {
            Ok(Self { drop_num: drop_rate_ppm as u32, drop_den: DROP_RATE_SCALE })
        } else {
            Err(ProxyError::ConfigurationError)
        }
    }
}

impl Filter for ChaosFilter {
    closed spec fn fview(&self) -> FilterView {
        FilterView::Chaos { num: self.drop_num, den: self.drop_den }
    }

    fn filter(&mut self, _request_hash: u64) -> (outcome: FilterOutcome)
        ensures
            final(self).fview() == filter_step(old(self).fview(), _request_hash),
            filter_may_return(old(self).fview(), _request_hash, outcome),
    {
        if bernoulli_draw(self.drop_num, self.drop_den) {
            // it is 50:50 whether a dropped encounter is denied as a
            // request or as a response
            if fair_coin() {
                FilterOutcome::RequestDenied
            } else {
                FilterOutcome::ResponseDenied
            }
        } else {
            FilterOutcome::Passed
        }
    }

    fn reset(&mut self, _request_hash: u64)
        ensures
            final(self).fview() == filter_reset(old(self).fview(), _request_hash),
    {
    }
}

} // verus!
