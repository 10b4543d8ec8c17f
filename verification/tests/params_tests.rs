use fakie::chain::evaluate;
use fakie::error::ProxyError;
use fakie::filter_outcome::FilterOutcome;
use fakie::params::Params;
use fakie::params::parse_target;

#[test]
fn count_filter_constructors_follow_their_flags() {
    assert!(Params::request_count_filter(None).is_none());
    assert!(Params::response_count_filter(None).is_none());

    let mut chain = vec![Params::request_count_filter(Some(1)).unwrap()];
    assert_eq!(evaluate(&mut chain, 3), FilterOutcome::RequestDenied);
    assert_eq!(evaluate(&mut chain, 3), FilterOutcome::Passed);

    let mut chain = vec![Params::response_count_filter(Some(1)).unwrap()];
    assert_eq!(evaluate(&mut chain, 3), FilterOutcome::ResponseDenied);
    assert_eq!(evaluate(&mut chain, 3), FilterOutcome::Passed);
}

#[test]
fn chaos_filter_constructor_validates_the_rate() {
    assert!(Params::chaos_filter(None).unwrap().is_none());
    assert!(Params::chaos_filter(Some(500_000)).unwrap().is_some());
    assert!(matches!(
        Params::chaos_filter(Some(2_000_000)),
        Err(ProxyError::ConfigurationError)
    ));
    assert!(matches!(Params::chaos_filter(Some(-1)), Err(ProxyError::ConfigurationError)));

    let mut chain = vec![Params::chaos_filter(Some(0)).unwrap().unwrap()];
    for fp in 0..100u64 {
        assert_eq!(evaluate(&mut chain, fp), FilterOutcome::Passed);
    }
}

#[test]
fn target_with_https_scheme_defaults_to_port_443() {
    let (host, port, tls) = parse_target("https://cataas.com").unwrap();
    assert_eq!(host, "cataas.com");
    assert_eq!(port, 443);
    assert!(tls);
}

#[test]
fn target_with_http_scheme_defaults_to_port_80() {
    let (host, port, tls) = parse_target("http://example.com").unwrap();
    assert_eq!(host, "example.com");
    assert_eq!(port, 80);
    assert!(!tls);
}

#[test]
fn bare_target_is_retried_as_plain_http() {
    let (host, port, tls) = parse_target("127.0.0.1:8080").unwrap();
    assert_eq!(host, "127.0.0.1");
    assert_eq!(port, 8080);
    assert!(!tls);
}

#[test]
fn explicit_port_wins_over_the_scheme_default() {
    let (host, port, tls) = parse_target("https://example.com:8443").unwrap();
    assert_eq!(host, "example.com");
    assert_eq!(port, 8443);
    assert!(tls);
}

#[test]
fn scheme_default_port_written_explicitly_still_resolves() {
    // the url crate normalizes an explicit scheme-default port away; the
    // default rule must put it back
    let (host, port, tls) = parse_target("https://example.com:443").unwrap();
    assert_eq!(host, "example.com");
    assert_eq!(port, 443);
    assert!(tls);
}

#[test]
fn target_without_a_host_is_rejected() {
    assert_eq!(
        parse_target("mailto:joe@example.com").unwrap_err(),
        ProxyError::ConfigurationError
    );
}

#[test]
fn from_cli_assembles_both_chains() {
    let params = Params::from_cli(
        String::from("127.0.0.1:8000"),
        Some(1),
        Some(1),
        Some(1),
        None,
        None,
        "https://cataas.com",
    )
    .unwrap();
    assert_eq!(params.listen_addr, "127.0.0.1:8000");
    assert_eq!(params.upstream_host, "cataas.com");
    assert_eq!(params.upstream_port, 443);
    assert!(params.upstream_is_tls);
    assert_eq!(params.request_filters.len(), 1);
    assert_eq!(params.response_filters.len(), 1);

    let mut request_filters = params.request_filters;
    assert_eq!(evaluate(&mut request_filters, 5), FilterOutcome::RequestDenied);
    let mut response_filters = params.response_filters;
    assert_eq!(evaluate(&mut response_filters, 5), FilterOutcome::ResponseDenied);
}

#[test]
fn from_cli_orders_request_filters_by_flag_position() {
    // the sends flag stood before the chaos flag, so the counting filter
    // runs first and decides deterministically
    let params = Params::from_cli(
        String::from("127.0.0.1:8000"),
        Some(1),
        Some(2),
        None,
        Some(1_000_000),
        Some(5),
        "http://example.com",
    )
    .unwrap();
    assert_eq!(params.request_filters.len(), 2);
    let mut chain = params.request_filters;
    assert_eq!(evaluate(&mut chain, 1), FilterOutcome::RequestDenied);
    // counting is exhausted; the full-rate chaos filter behind it denies
    assert_ne!(evaluate(&mut chain, 1), FilterOutcome::Passed);
}

#[test]
fn from_cli_rejects_an_invalid_chaos_rate() {
    let r = Params::from_cli(
        String::from("127.0.0.1:8000"),
        None,
        None,
        None,
        Some(1_500_000),
        Some(1),
        "http://example.com",
    );
    assert!(matches!(r, Err(ProxyError::ConfigurationError)));
}

#[test]
fn from_cli_rejects_a_hostless_target() {
    let r = Params::from_cli(
        String::from("127.0.0.1:8000"),
        None,
        None,
        None,
        None,
        None,
        "mailto:joe@example.com",
    );
    assert!(matches!(r, Err(ProxyError::ConfigurationError)));
}
