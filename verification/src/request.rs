//! Plain-value models of what the wrapper reads off a request and of what the
//! downstream stage hands back.

use vstd::prelude::*;

verus! {

/// The request metadata the wrapper captures at span-creation time, read
/// without mutating the request.
///
/// `route` is the router's matched pattern, `None` when no pattern has been
/// matched by the time the wrapper runs; `user_agent` is `None` when the
/// header is absent or its bytes do not decode as text. Both degrade to the
/// empty string in the span rather than failing the request.
#[derive(Debug)]
pub struct RequestMetadata {
    pub method: String,
    pub path: String,
    pub route: Option<String>,
    pub user_agent: Option<String>,
}

/// The span field an optional request property degrades to: its text, or the
/// empty string when the property is absent.
pub open spec fn spec_field_or_empty(property: Option<String>) -> Seq<char> {
    match property {
        Some(text) => text@,
        None => ""@,
    }
}

/// What the downstream stage settles to: a successful response or a failure.
/// Either way it carries a numeric status code — a failure value must be able
/// to produce one — and its own payload, which the wrapper never touches.
#[derive(Debug, PartialEq, Eq)]
pub enum Outcome<B, E> {
    Success { status: u16, body: B },
    Failure { status: u16, error: E },
}

impl<B, E> Outcome<B, E> {
    /// The status code this outcome yields for recording.
    pub open spec fn spec_status(&self) -> u16 {
        match self {
            Outcome::Success { status, .. } => *status,
            Outcome::Failure { status, .. } => *status,
        }
    }

    /// Derives the status code to record: the response's own status on
    /// success, the failure value's derivable status on failure.
    pub fn status(&self) -> (s: u16)
        ensures
            s == self.spec_status(),
    {
        match self {
            Outcome::Success { status, .. } => *status,
            Outcome::Failure { status, .. } => *status,
        }
    }
}

} // verus!
