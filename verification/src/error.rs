//! Error taxonomy of the proxy core.  Denials are not errors: they travel as
//! `FilterOutcome` values.  These variants cover what can actually go wrong.

use vstd::prelude::*;

verus! {

/// What can fail around the filter core: an invalid filter parameter at
/// construction (fatal at startup), no selectable upstream backend (reported
/// per request as a connect failure), or a response phase reached without a
/// recorded fingerprint (a state-machine violation, reported as a server
/// error).
#[derive(Copy, Clone, Debug, PartialEq, Eq, Structural)]
pub enum ProxyError {
    ConfigurationError,
    UpstreamUnavailable,
    InternalStateViolation,
}

impl ProxyError {
    /// The message of this error.
    pub open spec fn spec_message(self) -> Seq<char> {
        match self {
            ProxyError::ConfigurationError => "invalid configuration"@,
            ProxyError::UpstreamUnavailable => "no upstream backend available"@,
            ProxyError::InternalStateViolation => "response phase without a request fingerprint"@,
        }
    }

    /// Human-readable message, for the diagnostic stream.
    pub fn message(&self) -> (r: &'static str)
        ensures
            r@ == self.spec_message(),
    {
        match self {
            ProxyError::ConfigurationError => "invalid configuration",
            ProxyError::UpstreamUnavailable => "no upstream backend available",
            ProxyError::InternalStateViolation => "response phase without a request fingerprint",
        }
    }
}

} // verus!
