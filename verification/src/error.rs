//! The coordinator-facing error taxonomy.

use vstd::prelude::*;
use vstd::string::StringExecFns;

verus! {

/// Errors arising from talking to the coordinator.
#[derive(Debug, Clone, Copy, PartialEq, Eq, Structural)]
pub enum Errors {
    RavelError,
    SubmissionFetchError,
    ProblemFetchError,
}

/// The message the daemon logs for each coordinator error.
pub open spec fn error_message(e: Errors) -> Seq<char> {
    match e {
        Errors::RavelError => "Error communicating to ravel"@,
        Errors::SubmissionFetchError =>
            "Unable to fetch submissions from ravel. Response did not match type of input."@,
        Errors::ProblemFetchError =>
            "Unable to fetch problem in/out from ravel. Response did not match type of input."@,
    }
}

impl Errors {
    /// The log message for this error.
    pub fn message(&self) -> (r: String)
        ensures
            r@ == error_message(*self),
    {
        match self {
            Self::RavelError => String::from_str("Error communicating to ravel"),
            Self::SubmissionFetchError => String::from_str(
                "Unable to fetch submissions from ravel. Response did not match type of input.",
            ),
            Self::ProblemFetchError => String::from_str(
                "Unable to fetch problem in/out from ravel. Response did not match type of input.",
            ),
        }
    }
}

} // verus!
