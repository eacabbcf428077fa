//! Types and response classification for the coordinator ("Ravel").
//!
//! The daemon pulls pending submissions from `GET {url}/judge/pending` and
//! pushes verdicts to `POST {url}/judge/update`.  The transport and the JSON
//! decoding live outside this crate; the functions here decide, from the HTTP
//! status and the decoded body, what each exchange amounts to.

use vstd::prelude::*;
use crate::error::Errors;
use crate::runner::{JobResult, Languages};

verus! {

/// A submission pulled from the coordinator.
#[derive(Debug)]
pub struct Submission {
    /// Submission id, stable across pulls.
    pub id: i32,
    /// Language the code is in.
    pub language: Languages,
    /// Time submitted, propagated for logging only.
    pub time: String,
    /// The candidate source text.
    pub content: String,
    /// Problem id.
    pub problem: i32,
    /// Lowercase hex digest of the problem's expected input.
    pub input_sum: String,
    /// Lowercase hex digest of the problem's expected output.
    pub output_sum: String,
    /// Per-test wall-clock ceiling in seconds, enforced by the sandbox.
    pub timeout: i32,
}

impl Clone for Submission {
    fn clone(&self) -> (res: Self)
        ensures
            res == *self,
    {
        Submission {
            id: self.id,
            language: self.language,
            time: self.time.clone(),
            content: self.content.clone(),
            problem: self.problem,
            input_sum: self.input_sum.clone(),
            output_sum: self.output_sum.clone(),
            timeout: self.timeout,
        }
    }
}

/// The decoded body of a successful pending-submissions response.
#[derive(Debug)]
pub struct Submissions {
    pub submissions: Vec<Submission>,
}

/// The verdict reported for one finished submission.
#[derive(Debug, Clone, Copy, PartialEq, Eq)]
pub struct FinishedSubmissions {
    pub id: i32,
    pub solved: bool,
    /// Present exactly when the submission was not solved.
    pub error: Option<JobResult>,
}

/// The batch pushed to the coordinator: credentials plus pending verdicts.
#[derive(Debug)]
pub struct Update {
    pub username: String,
    pub password: String,
    pub submissions: Vec<FinishedSubmissions>,
}

/// Classifies a pending-submissions exchange: a 200 with a well-shaped body
/// yields its submissions; a 200 whose body did not decode is a
/// `SubmissionFetchError`; any other status is a `RavelError`.
pub fn classify_pending_response(status: u16, parsed: Option<Submissions>) -> (r: Result<
    Vec<Submission>,
    Errors,
>)
    ensures
        status == 200 && parsed is Some ==> (r matches Ok(subs) && subs == parsed->0.submissions),
        status == 200 && parsed is None ==> r == Err::<Vec<Submission>, Errors>(
            Errors::SubmissionFetchError,
        ),
        status != 200 ==> r == Err::<Vec<Submission>, Errors>(Errors::RavelError),
{
    if status == 200 {
        match parsed {
            Some(p) => Ok(p.submissions),
            None => Err(Errors::SubmissionFetchError),
        }
    } else {
        Err(Errors::RavelError)
    }
}

} // verus!
