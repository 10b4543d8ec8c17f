use fakie::chain::AnyFilter;
use fakie::chain::evaluate;
use fakie::chain::reset_all;
use fakie::chaos_filter::ChaosFilter;
use fakie::counting_filter::CountingFilter;
use fakie::filter_outcome::FilterOutcome;

fn counting(max: u64, mode: FilterOutcome) -> AnyFilter {
    AnyFilter::Counting(CountingFilter::new(max, mode))
}

#[test]
fn empty_chain_passes() {
    let mut chain: Vec<AnyFilter> = Vec::new();
    assert_eq!(evaluate(&mut chain, 5), FilterOutcome::Passed);
}

#[test]
fn chain_returns_first_non_pass() {
    let mut chain = vec![
        counting(0, FilterOutcome::RequestDenied),
        counting(1, FilterOutcome::ResponseDenied),
    ];
    // the first filter never denies, so the second one decides
    assert_eq!(evaluate(&mut chain, 9), FilterOutcome::ResponseDenied);
}

#[test]
fn short_circuit_leaves_later_filters_untouched() {
    // A denies once, B denies once; while A denies, B must not even be
    // invoked, so B's counter stays at zero through the first call
    let mut chain = vec![
        counting(1, FilterOutcome::RequestDenied),
        counting(1, FilterOutcome::ResponseDenied),
    ];
    let fp = 11u64;
    assert_eq!(evaluate(&mut chain, fp), FilterOutcome::RequestDenied);
    // A is exhausted, so B now sees its very first encounter
    assert_eq!(evaluate(&mut chain, fp), FilterOutcome::ResponseDenied);
    // both exhausted
    assert_eq!(evaluate(&mut chain, fp), FilterOutcome::Passed);
}

#[test]
fn reset_all_resets_every_filter_of_the_chain() {
    let mut chain = vec![
        counting(1, FilterOutcome::RequestDenied),
        counting(1, FilterOutcome::ResponseDenied),
    ];
    let fp = 13u64;
    assert_eq!(evaluate(&mut chain, fp), FilterOutcome::RequestDenied);
    assert_eq!(evaluate(&mut chain, fp), FilterOutcome::ResponseDenied);
    assert_eq!(evaluate(&mut chain, fp), FilterOutcome::Passed);
    reset_all(&mut chain, fp);
    // back to the very first behaviour: the first filter denies again
    assert_eq!(evaluate(&mut chain, fp), FilterOutcome::RequestDenied);
}

#[test]
fn chain_mixing_chaos_and_counting() {
    // a zero-rate chaos filter always passes, so the counting filter decides
    let mut chain = vec![
        AnyFilter::Chaos(ChaosFilter::new(0).unwrap()),
        counting(1, FilterOutcome::ResponseDenied),
    ];
    let fp = 17u64;
    assert_eq!(evaluate(&mut chain, fp), FilterOutcome::ResponseDenied);
    assert_eq!(evaluate(&mut chain, fp), FilterOutcome::Passed);
}

#[test]
fn full_rate_chaos_short_circuits_the_chain() {
    // a full-rate chaos filter never passes, so the counting filter behind
    // it is never invoked and never counts
    let mut chain = vec![
        AnyFilter::Chaos(ChaosFilter::new(1_000_000).unwrap()),
        counting(1, FilterOutcome::RequestDenied),
    ];
    let fp = 19u64;
    for _ in 0..50 {
        assert_ne!(evaluate(&mut chain, fp), FilterOutcome::Passed);
    }
}
