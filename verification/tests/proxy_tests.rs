use fakie::chain::AnyFilter;
use fakie::counting_filter::CountingFilter;
use fakie::error::ProxyError;
use fakie::filter_outcome::FilterOutcome;
use fakie::filter_outcome::LogColour;
use fakie::proxy::FlakyProxy;
use fakie::proxy::ProxyOutcome;
use fakie::proxy::request_verdict;
use fakie::proxy::response_verdict;

fn counting(max: u64, mode: FilterOutcome) -> AnyFilter {
    AnyFilter::Counting(CountingFilter::new(max, mode))
}

#[test]
fn single_counting_filter_cycle_scenario() {
    // counting filter max = 1 denying requests, request phase only
    let mut proxy = FlakyProxy::new(
        7,
        vec![counting(1, FilterOutcome::RequestDenied)],
        Vec::new(),
    );

    // first request with fingerprint X: rejected locally, upstream untouched
    let mut ctx = proxy.new_ctx();
    let outcome = proxy.request_phase(&mut ctx, b"GET", b"/cat", None);
    assert_eq!(outcome, FilterOutcome::RequestDenied);
    assert_eq!(request_verdict(outcome), Some(ProxyOutcome::RequestDropped));

    // second request, same fingerprint: passes, forwarded, response phase
    // passes (empty chain), cycle completes and resets the filter
    let mut ctx = proxy.new_ctx();
    let outcome = proxy.request_phase(&mut ctx, b"GET", b"/cat", None);
    assert_eq!(outcome, FilterOutcome::Passed);
    assert_eq!(request_verdict(outcome), None);
    let response = proxy.response_phase(&ctx).unwrap();
    assert_eq!(response, FilterOutcome::Passed);
    assert_eq!(response_verdict(response), ProxyOutcome::Forwarded);

    // third request, same fingerprint: denied again, exactly like the first
    let mut ctx = proxy.new_ctx();
    let outcome = proxy.request_phase(&mut ctx, b"GET", b"/cat", None);
    assert_eq!(outcome, FilterOutcome::RequestDenied);
}

#[test]
fn response_phase_without_fingerprint_is_a_state_violation() {
    let mut proxy = FlakyProxy::new(1, Vec::new(), Vec::new());
    let ctx = proxy.new_ctx();
    assert_eq!(proxy.response_phase(&ctx).unwrap_err(), ProxyError::InternalStateViolation);
}

#[test]
fn response_chain_denial_skips_the_reset() {
    // response-phase counting filter, max = 1
    let mut proxy = FlakyProxy::new(
        3,
        Vec::new(),
        vec![counting(1, FilterOutcome::ResponseDenied)],
    );

    // first cycle: request passes, response denied; nothing is reset
    let mut ctx = proxy.new_ctx();
    assert_eq!(proxy.request_phase(&mut ctx, b"GET", b"/", None), FilterOutcome::Passed);
    let response = proxy.response_phase(&ctx).unwrap();
    assert_eq!(response, FilterOutcome::ResponseDenied);
    assert_eq!(response_verdict(response), ProxyOutcome::ResponseDropped);

    // second cycle: the counter survived the denial, so the filter is
    // exhausted, the response passes and the cycle resets everything
    let mut ctx = proxy.new_ctx();
    assert_eq!(proxy.request_phase(&mut ctx, b"GET", b"/", None), FilterOutcome::Passed);
    assert_eq!(proxy.response_phase(&ctx).unwrap(), FilterOutcome::Passed);

    // third cycle: back to the first cycle's behaviour
    let mut ctx = proxy.new_ctx();
    assert_eq!(proxy.request_phase(&mut ctx, b"GET", b"/", None), FilterOutcome::Passed);
    assert_eq!(proxy.response_phase(&ctx).unwrap(), FilterOutcome::ResponseDenied);
}

#[test]
fn denied_request_keeps_the_counter() {
    // max = 2: two denials in a row prove the first denial did not reset
    let mut proxy = FlakyProxy::new(
        5,
        vec![counting(2, FilterOutcome::RequestDenied)],
        Vec::new(),
    );
    let mut ctx = proxy.new_ctx();
    assert_eq!(proxy.request_phase(&mut ctx, b"PUT", b"/a", Some(b"10.0.0.1")), FilterOutcome::RequestDenied);
    let mut ctx = proxy.new_ctx();
    assert_eq!(proxy.request_phase(&mut ctx, b"PUT", b"/a", Some(b"10.0.0.1")), FilterOutcome::RequestDenied);
    let mut ctx = proxy.new_ctx();
    assert_eq!(proxy.request_phase(&mut ctx, b"PUT", b"/a", Some(b"10.0.0.1")), FilterOutcome::Passed);
}

#[test]
fn completed_cycle_resets_both_chains() {
    let mut proxy = FlakyProxy::new(
        11,
        vec![counting(1, FilterOutcome::RequestDenied)],
        vec![counting(1, FilterOutcome::ResponseDenied)],
    );

    // drain the request filter
    let mut ctx = proxy.new_ctx();
    assert_eq!(proxy.request_phase(&mut ctx, b"GET", b"/", None), FilterOutcome::RequestDenied);
    // request passes now; drain the response filter
    let mut ctx = proxy.new_ctx();
    assert_eq!(proxy.request_phase(&mut ctx, b"GET", b"/", None), FilterOutcome::Passed);
    assert_eq!(proxy.response_phase(&ctx).unwrap(), FilterOutcome::ResponseDenied);
    // both exhausted: the cycle completes and resets both chains
    let mut ctx = proxy.new_ctx();
    assert_eq!(proxy.request_phase(&mut ctx, b"GET", b"/", None), FilterOutcome::Passed);
    assert_eq!(proxy.response_phase(&ctx).unwrap(), FilterOutcome::Passed);
    // and the very next cycle starts from scratch
    let mut ctx = proxy.new_ctx();
    assert_eq!(proxy.request_phase(&mut ctx, b"GET", b"/", None), FilterOutcome::RequestDenied);
}

#[test]
fn concurrent_style_interleaving_of_two_fingerprints() {
    // two units of work with distinct fingerprints against the same filter
    // instance: each counter evolves independently of the interleaving
    let mut proxy = FlakyProxy::new(
        2,
        vec![counting(1, FilterOutcome::RequestDenied)],
        Vec::new(),
    );
    let mut ctx_x = proxy.new_ctx();
    let mut ctx_y = proxy.new_ctx();
    assert_eq!(proxy.request_phase(&mut ctx_x, b"GET", b"/x", None), FilterOutcome::RequestDenied);
    assert_eq!(proxy.request_phase(&mut ctx_y, b"GET", b"/y", None), FilterOutcome::RequestDenied);
    let mut ctx_x = proxy.new_ctx();
    let mut ctx_y = proxy.new_ctx();
    assert_eq!(proxy.request_phase(&mut ctx_x, b"GET", b"/x", None), FilterOutcome::Passed);
    assert_eq!(proxy.request_phase(&mut ctx_y, b"GET", b"/y", None), FilterOutcome::Passed);
    // completing X's cycle resets only by fingerprint: Y's counter is zeroed
    // for Y's own fingerprint too, but only through its own completed cycle
    assert_eq!(proxy.response_phase(&ctx_x).unwrap(), FilterOutcome::Passed);
    let mut ctx_x = proxy.new_ctx();
    assert_eq!(proxy.request_phase(&mut ctx_x, b"GET", b"/x", None), FilterOutcome::RequestDenied);
}

#[test]
fn proxy_outcome_labels_and_colours() {
    assert_eq!(ProxyOutcome::RequestDropped.label(), "REQUEST DROPPED");
    assert_eq!(ProxyOutcome::ResponseDropped.label(), "RESPONSE DROPPED");
    assert_eq!(ProxyOutcome::Forwarded.label(), "FORWARDED");
    assert_eq!(ProxyOutcome::RequestDropped.get_colour(), LogColour::Red);
    assert_eq!(ProxyOutcome::ResponseDropped.get_colour(), LogColour::Yellow);
    assert_eq!(ProxyOutcome::Forwarded.get_colour(), LogColour::Green);
}

#[test]
fn verdicts_follow_the_lifecycle() {
    assert_eq!(request_verdict(FilterOutcome::Passed), None);
    assert_eq!(
        request_verdict(FilterOutcome::ResponseDenied),
        Some(ProxyOutcome::RequestDropped)
    );
    assert_eq!(response_verdict(FilterOutcome::Passed), ProxyOutcome::Forwarded);
    assert_eq!(response_verdict(FilterOutcome::RequestDenied), ProxyOutcome::ResponseDropped);
}

#[test]
fn error_messages() {
    assert_eq!(ProxyError::ConfigurationError.message(), "invalid configuration");
    assert_eq!(ProxyError::UpstreamUnavailable.message(), "no upstream backend available");
    assert_eq!(
        ProxyError::InternalStateViolation.message(),
        "response phase without a request fingerprint"
    );
}
