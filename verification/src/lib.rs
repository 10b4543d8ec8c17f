//! Decision core of a deliberately flaky HTTP reverse proxy used for
//! resilience testing: filter-chain evaluation and request-identity tracking.
//!
//! The crate decides, for every request/response unit of work, whether to
//! pass it through, reject the request before the upstream is contacted, or
//! reject the response after the upstream has answered.  The surrounding
//! proxy engine, DNS discovery and console logging live outside this crate.

pub mod chain;
pub mod chaos_filter;
pub mod counter;
pub mod counting_filter;
pub mod error;
pub mod filter;
pub mod filter_outcome;
pub mod fingerprint;
pub mod params;
pub mod proxy;

pub use filter_outcome::FilterOutcome;
pub use filter_outcome::LogColour;
