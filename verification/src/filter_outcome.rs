//! The closed outcome taxonomy every filter decision is drawn from.

use vstd::prelude::*;

verus! {

/// The three-way decision a filter (or a whole chain) produces for one
/// encounter of a fingerprint: deny the request before the upstream is
/// contacted, deny the response after it has answered, or let it pass.
#[derive(Copy, Clone, Debug, PartialEq, Eq, Structural)]
pub enum FilterOutcome {
    RequestDenied,
    ResponseDenied,
    Passed,
}

/// Severity colour the logging collaborator renders an outcome in when the
/// output is an interactive terminal.
#[derive(Copy, Clone, Debug, PartialEq, Eq, Structural)]
pub enum LogColour {
    Red,
    Yellow,
    Green,
}

impl FilterOutcome {
    /// The display label of this outcome.
    pub open spec fn spec_label(self) -> Seq<char> {
        match self {
            FilterOutcome::RequestDenied => "REQUEST DENIED"@,
            FilterOutcome::ResponseDenied => "RESPONSE DENIED"@,
            FilterOutcome::Passed => "PASSED"@,
        }
    }

    /// The severity colour of this outcome: red for a denied request, yellow
    /// for a denied response, green for a pass.
    pub open spec fn spec_colour(self) -> LogColour {
        match self {
            FilterOutcome::RequestDenied => LogColour::Red,
            FilterOutcome::ResponseDenied => LogColour::Yellow,
            FilterOutcome::Passed => LogColour::Green,
        }
    }

    /// Human-readable label for the log line of a completed cycle.
    pub fn label(&self) -> (r: &'static str)
        ensures
            r@ == self.spec_label(),
    {
        match self {
            FilterOutcome::RequestDenied => "REQUEST DENIED",
            FilterOutcome::ResponseDenied => "RESPONSE DENIED",
            FilterOutcome::Passed => "PASSED",
        }
    }

    /// The colour tag a renderer should use for this outcome.
    pub fn get_colour(&self) -> (c: LogColour)
        ensures
            c == self.spec_colour(),
    {
        match self {
            FilterOutcome::RequestDenied => LogColour::Red,
            FilterOutcome::ResponseDenied => LogColour::Yellow,
            FilterOutcome::Passed => LogColour::Green,
        }
    }
}

} // verus!
