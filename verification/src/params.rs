//! The configuration surface: turn the values read from the command line
//! into the listen address, the upstream target and the two filter chains.
//! Target URLs are parsed by the `url` crate behind trusted wrappers; every
//! rule about schemes, default ports and filter order is verified here.

use vstd::prelude::*;
use vstd::string::StringExecFns;
use crate::chain::AnyFilter;
use crate::chain::chain_views;
use crate::chaos_filter::ChaosFilter;
use crate::chaos_filter::DROP_RATE_SCALE;
use crate::chaos_filter::chaos_view;
use crate::counting_filter::CountingFilter;
use crate::counting_filter::fresh_counting;
use crate::error::ProxyError;
use crate::filter::Filter;
use crate::filter::FilterView;
use crate::filter_outcome::FilterOutcome;

verus! {

/// Whether a string parses as an absolute URL.  Parsing is a function of
/// the string alone; its full definition is the url crate's grammar, so it
/// only gets a name here.
pub uninterp spec fn url_ok(s: Seq<char>) -> bool;

/// The scheme of the URL a string parses to (lower-cased, without the
/// trailing colon), where the string parses at all.
pub uninterp spec fn url_scheme_of(s: Seq<char>) -> Seq<char>;

/// The host of the URL a string parses to, or `None` where that URL has no
/// host at all.
pub uninterp spec fn url_host(s: Seq<char>) -> Option<Seq<char>>;

/// The port written explicitly in the URL a string parses to; scheme
/// defaults are applied by this crate, not by the parser.
pub uninterp spec fn url_explicit_port(s: Seq<char>) -> Option<u16>;

/// What the URL parser found in a target string: the pieces of the URL this
/// crate's upstream rules work on.
pub struct UrlParts {
    pub scheme: String,
    pub host: Option<String>,
    pub port: Option<u16>,
}

/// The view of an optional host string.
pub open spec fn host_view(host: Option<String>) -> Option<Seq<char>> {
    match host {
        Some(h) => Some(h@),
        None => None,
    }
}

/// Relies on url::Url::parse and its accessors scheme, host_str and port:
/// parsing succeeds exactly on well-formed absolute URLs (a bare
/// `host:port` string is not one), and scheme, host and explicit port are
/// read off the parsed URL, each a function of the input string alone.
#[verifier::external_body]
fn parse_url_parts(input: &str) -> (r: Option<UrlParts>)
    ensures
        (r is Some) <==> url_ok(input@),
        r is Some ==> r->0.scheme@ == url_scheme_of(input@),
        r is Some ==> host_view(r->0.host) == url_host(input@),
        r is Some ==> r->0.port == url_explicit_port(input@),
{
    match url::Url::parse(input) {
        Ok(u) => Some(
            UrlParts {
                scheme: u.scheme().to_owned(),
                host: u.host_str().map(|h| h.to_owned()),
                port: u.port(),
            },
        ),
        Err(_) => None,
    }
}

/// Whether a scheme selects TLS towards the upstream: everything except
/// plain `http` does.
pub open spec fn spec_is_tls(scheme: Seq<char>) -> bool {
    scheme != "http"@
}

/// The upstream port to use: the explicit one where the URL names one, else
/// 443 for TLS and 80 for plain HTTP.
pub open spec fn spec_upstream_port(explicit: Option<u16>, is_tls: bool) -> u16 {
    match explicit {
        Some(p) => p,
        None => if is_tls {
            443
        } else {
            80
        },
    }
}

/// Apply the scheme and port rules to what the URL parser found: the
/// upstream is `(host, port, TLS flag)`, and a URL without a host cannot
/// name an upstream.
pub fn resolve_upstream(scheme: &String, host: Option<String>, explicit_port: Option<u16>) -> (r:
    Result<(String, u16, bool), ProxyError>)
    ensures
        (r is Ok) <==> (host is Some),
        r is Err ==> r->Err_0 == ProxyError::ConfigurationError,
        r is Ok ==> r->Ok_0.0 == host->Some_0,
        r is Ok ==> r->Ok_0.1 == spec_upstream_port(explicit_port, spec_is_tls(scheme@)),
        r is Ok ==> r->Ok_0.2 == spec_is_tls(scheme@),
{
    let http = String::from_str("http");
    let is_tls = !(*scheme == http);
    match host {
        None => Err(ProxyError::ConfigurationError),
        Some(h) => {
            let port: u16 = match explicit_port {
                Some(p) => p,
                None => if is_tls {
                    443
                } else {
                    80
                },
            };
            Ok((h, port, is_tls))
        },
    }
}

/// The URL string a target is actually parsed as: the target itself where
/// it already is an absolute URL, else the target retried as plain HTTP.
pub open spec fn spec_target_url(target: Seq<char>) -> Seq<char> {
    if url_ok(target) {
        target
    } else {
        "http://"@ + target
    }
}

/// Whether a target names an upstream at all: its URL parses and has a host.
pub open spec fn spec_target_ok(target: Seq<char>) -> bool {
    url_ok(spec_target_url(target)) && url_host(spec_target_url(target)) is Some
}

/// The upstream a target resolves to: its URL's host, the explicit port or
/// the scheme default, and the TLS flag of everything but plain `http`.
pub open spec fn spec_upstream_of(target: Seq<char>) -> (Seq<char>, u16, bool) {
    let u = spec_target_url(target);
    (
        url_host(u)->0,
        spec_upstream_port(url_explicit_port(u), spec_is_tls(url_scheme_of(u))),
        spec_is_tls(url_scheme_of(u)),
    )
}

/// Parse the target the proxy forwards to, such as `https://cataas.com` or
/// `127.0.0.1:8080`, into `(host, port, TLS flag)`.  A target without a
/// scheme is retried as plain HTTP; exactly the targets whose URL has no
/// host are rejected.
pub fn parse_target(target: &str) -> (r: Result<(String, u16, bool), ProxyError>)
    ensures
        (r is Ok) <==> spec_target_ok(target@),
        r is Err ==> r->Err_0 == ProxyError::ConfigurationError,
        r is Ok ==> r->Ok_0.0@ == spec_upstream_of(target@).0,
        r is Ok ==> r->Ok_0.1 == spec_upstream_of(target@).1,
        r is Ok ==> r->Ok_0.2 == spec_upstream_of(target@).2,
{
    let parts = match parse_url_parts(target) {
        Some(p) => p,
        None => {
            let prefixed = String::from_str("http://").concat(target);
            match parse_url_parts(prefixed.as_str()) {
                Some(p) => p,
                None => {
                    return Err(ProxyError::ConfigurationError);
                },
            }
        },
    };
    let UrlParts { scheme, host, port } = parts;
    resolve_upstream(&scheme, host, port)
}

/// The request-phase chain the command line asks for: the send-counting
/// filter and the chaos filter, each only where its flag was given, in the
/// order the flags stood on the command line.
pub open spec fn spec_request_chain(
    sends: Option<u64>,
    sends_index: Option<usize>,
    chaos_ppm: Option<i64>,
    chaos_index: Option<usize>,
) -> Seq<FilterView> {
    let send_part = match sends {
        Some(n) => seq![fresh_counting(n, FilterOutcome::RequestDenied)],
        None => Seq::empty(),
    };
    let chaos_part = match chaos_ppm {
        Some(p) => seq![chaos_view(p)],
        None => Seq::empty(),
    };
    if spec_chaos_first(sends_index, chaos_index) {
        chaos_part + send_part
    } else {
        send_part + chaos_part
    }
}

/// Whether the chaos flag stood before the sends flag on the command line.
pub open spec fn spec_chaos_first(sends_index: Option<usize>, chaos_index: Option<usize>) -> bool {
    match (sends_index, chaos_index) {
        (Some(s), Some(c)) => c < s,
        _ => false,
    }
}

/// The response-phase chain the command line asks for: just the
/// response-counting filter, where its flag was given.
pub open spec fn spec_response_chain(responses: Option<u64>) -> Seq<FilterView> {
    match responses {
        Some(n) => seq![fresh_counting(n, FilterOutcome::ResponseDenied)],
        None => Seq::empty(),
    }
}

/// Everything the proxy is configured with.
pub struct Params {
    pub listen_addr: String,
    pub upstream_host: String,
    pub upstream_port: u16,
    pub upstream_is_tls: bool,
    pub request_filters: Vec<AnyFilter>,
    pub response_filters: Vec<AnyFilter>,
}

impl Params {
    /// The counting filter for `--sends n`: deny the first `n` send
    /// attempts of each fingerprint as requests.
    pub fn request_count_filter(n: Option<u64>) -> (r: Option<AnyFilter>)
        ensures
            (r is Some) <==> (n is Some),
            r is Some ==> r->0.fview() == fresh_counting(
                n->0,
                FilterOutcome::RequestDenied,
            ),
    {
        match n {
            Some(max) => Some(
                AnyFilter::Counting(CountingFilter::new(max, FilterOutcome::RequestDenied)),
            ),
            None => None,
        }
    }

    /// The counting filter for `--responses n`: deny the first `n` upstream
    /// responses of each fingerprint as responses.
    pub fn response_count_filter(n: Option<u64>) -> (r: Option<AnyFilter>)
        ensures
            (r is Some) <==> (n is Some),
            r is Some ==> r->0.fview() == fresh_counting(
                n->0,
                FilterOutcome::ResponseDenied,
            ),
    {
        match n {
            Some(max) => Some(
                AnyFilter::Counting(CountingFilter::new(max, FilterOutcome::ResponseDenied)),
            ),
            None => None,
        }
    }

    /// The chaos filter for `--chaos`, with its drop rate in millionths.  A
    /// rate that is not a probability prevents startup.
    pub fn chaos_filter(drop_rate_ppm: Option<i64>) -> (r: Result<Option<AnyFilter>, ProxyError>)
        ensures
            (r is Ok) <==> (drop_rate_ppm is None || 0 <= drop_rate_ppm->0 <= DROP_RATE_SCALE),
            r is Err ==> r->Err_0 == ProxyError::ConfigurationError,
            r is Ok ==> ((r->Ok_0 is Some) <==> (drop_rate_ppm is Some)),
            (r is Ok && drop_rate_ppm is Some) ==> r->Ok_0->0.fview() == chaos_view(
                drop_rate_ppm->0,
            ),
    {
        match drop_rate_ppm {
            Some(ppm) => {
                match ChaosFilter::new(ppm) {
                    Ok(f) => Ok(Some(AnyFilter::Chaos(f))),
                    Err(e) => Err(e),
                }
            },
            None => Ok(None),
        }
    }

    /// Assemble the whole configuration from the values the command line
    /// carried: the listen address, the three optional filter flags with the
    /// positions they stood at, and the target server.
    pub fn from_cli(
        listen_addr: String,
        sends: Option<u64>,
        sends_index: Option<usize>,
        responses: Option<u64>,
        chaos_ppm: Option<i64>,
        chaos_index: Option<usize>,
        target: &str,
    ) -> (r: Result<Params, ProxyError>)
        ensures
            (r is Ok) <==> ((chaos_ppm is None || 0 <= chaos_ppm->0 <= DROP_RATE_SCALE)
                && spec_target_ok(target@)),
            r is Err ==> r->Err_0 == ProxyError::ConfigurationError,
            r is Ok ==> r->Ok_0.listen_addr == listen_addr,
            r is Ok ==> r->Ok_0.upstream_host@ == spec_upstream_of(target@).0,
            r is Ok ==> r->Ok_0.upstream_port == spec_upstream_of(target@).1,
            r is Ok ==> r->Ok_0.upstream_is_tls == spec_upstream_of(target@).2,
            r is Ok ==> chain_views(r->Ok_0.request_filters@) == spec_request_chain(
                sends,
                sends_index,
                chaos_ppm,
                chaos_index,
            ),
            r is Ok ==> chain_views(r->Ok_0.response_filters@) == spec_response_chain(responses),
    {
        let send_filter = Self::request_count_filter(sends);
        let chaos = match Self::chaos_filter(chaos_ppm) {
            Ok(c) => c,
            Err(e) => {
                return Err(e);
            },
        };

        let chaos_first = match (sends_index, chaos_index) {
            (Some(s), Some(c)) => c < s,
            _ => false,
        };

        let mut request_filters: Vec<AnyFilter> = Vec::new();
        if chaos_first {
            if let Some(f) = chaos {
                request_filters.push(f);
            }
            if let Some(f) = send_filter {
                request_filters.push(f);
            }
        } else {
            if let Some(f) = send_filter {
                request_filters.push(f);
            }
            if let Some(f) = chaos {
                request_filters.push(f);
            }
        }
        assert(chain_views(request_filters@) =~= spec_request_chain(
            sends,
            sends_index,
            chaos_ppm,
            chaos_index,
        ));

        let mut response_filters: Vec<AnyFilter> = Vec::new();
        if let Some(f) = Self::response_count_filter(responses) {
            response_filters.push(f);
        }
        assert(chain_views(response_filters@) =~= spec_response_chain(responses));

        let (upstream_host, upstream_port, upstream_is_tls) = match parse_target(target) {
            Ok(t) => t,
            Err(e) => {
                return Err(e);
            },
        };

        Ok(
            Params {
                listen_addr,
                upstream_host,
                upstream_port,
                upstream_is_tls,
                request_filters,
                response_filters,
            },
        )
    }
}

} // verus!
