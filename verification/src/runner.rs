//! The submission result vocabulary and per-job lifecycle states.
//!
//! The sandbox image reports its outcome as a single sentinel line in
//! `status.txt`; [`JobResult::from_string`] parses that line by exact match
//! against the six-token vocabulary.

use vstd::prelude::*;
use vstd::string::StringExecFns;
use crate::text::str_eq;

verus! {

/// A programming language a submission may be written in.
#[derive(Debug, Clone, Copy, PartialEq, Eq, Structural, Hash)]
pub enum Languages {
    Python,
    Java,
    Cpp,
}

/// Where a job stands in its lifecycle.
#[derive(Debug, Clone, Copy, PartialEq, Eq, Structural, Hash)]
pub enum JobStatus {
    Pending,
    Running,
    Finished,
}

/// The closed classification of a finished run.
#[derive(Debug, Clone, Copy, PartialEq, Eq, Structural, Hash)]
pub enum JobResult {
    Correct,
    Wrong,
    TimelimitException,
    RuntimeError,
    CompilerError,
    IllegalImport,
}

/// The sentinel line the sandbox writes into `status.txt` for each result.
pub open spec fn result_token(r: JobResult) -> Seq<char> {
    match r {
        JobResult::Correct => "Correct"@,
        JobResult::Wrong => "Wrong"@,
        JobResult::TimelimitException => "Timelimit Exception"@,
        JobResult::RuntimeError => "Runtime Error"@,
        JobResult::CompilerError => "Compiler Error"@,
        JobResult::IllegalImport => "Illegal Import"@,
    }
}

/// The result a status line parses to: exact match against the six tokens,
/// anything else (the empty string included) parses to `None`.
pub open spec fn parse_result(s: Seq<char>) -> Option<JobResult> {
    if s == "Correct"@ {
        Some(JobResult::Correct)
    } else if s == "Wrong"@ {
        Some(JobResult::Wrong)
    } else if s == "Timelimit Exception"@ {
        Some(JobResult::TimelimitException)
    } else if s == "Runtime Error"@ {
        Some(JobResult::RuntimeError)
    } else if s == "Compiler Error"@ {
        Some(JobResult::CompilerError)
    } else if s == "Illegal Import"@ {
        Some(JobResult::IllegalImport)
    } else {
        None
    }
}

impl JobResult {
    /// The historical numeric decoding of a result, one-based.
    pub fn from_i32(i: i32) -> (r: Option<Self>)
        ensures
            r == (if i == 1 {
                Some(JobResult::Correct)
            } else if i == 2 {
                Some(JobResult::Wrong)
            } else if i == 3 {
                Some(JobResult::TimelimitException)
            } else if i == 4 {
                Some(JobResult::RuntimeError)
            } else if i == 5 {
                Some(JobResult::CompilerError)
            } else if i == 6 {
                Some(JobResult::IllegalImport)
            } else {
                None::<JobResult>
            }),
    {
        match i {
            1 => Some(Self::Correct),
            2 => Some(Self::Wrong),
            3 => Some(Self::TimelimitException),
            4 => Some(Self::RuntimeError),
            5 => Some(Self::CompilerError),
            6 => Some(Self::IllegalImport),
            _ => None,
        }
    }

    /// Parses a status line by exact match against the six sentinel tokens.
    pub fn from_string(s: &str) -> (r: Option<Self>)
        ensures
            r == parse_result(s@),
    {
        if str_eq(s, "Correct") {
            Some(Self::Correct)
        } else if str_eq(s, "Wrong") {
            Some(Self::Wrong)
        } else if str_eq(s, "Timelimit Exception") {
            Some(Self::TimelimitException)
        } else if str_eq(s, "Runtime Error") {
            Some(Self::RuntimeError)
        } else if str_eq(s, "Compiler Error") {
            Some(Self::CompilerError)
        } else if str_eq(s, "Illegal Import") {
            Some(Self::IllegalImport)
        } else {
            None
        }
    }

    /// The sentinel text of this result, as the sandbox would write it.
    pub fn name(&self) -> (r: String)
        ensures
            r@ == result_token(*self),
    {
        match self {
            Self::Correct => String::from_str("Correct"),
            Self::Wrong => String::from_str("Wrong"),
            Self::TimelimitException => String::from_str("Timelimit Exception"),
            Self::RuntimeError => String::from_str("Runtime Error"),
            Self::CompilerError => String::from_str("Compiler Error"),
            Self::IllegalImport => String::from_str("Illegal Import"),
        }
    }
}

/// Law: parsing the sentinel text of any result yields that result back, and a
/// line parses successfully only if it is the sentinel text of some result.
pub proof fn lemma_result_token_round_trip()
    ensures
        forall|r: JobResult| #[trigger] parse_result(result_token(r)) == Some(r),
        forall|s: Seq<char>| #[trigger] parse_result(s) is Some ==> exists|r: JobResult|
            result_token(r) == s,
{
    broadcast use vstd::string::group_string_axioms;

    reveal_strlit("Correct");
    reveal_strlit("Wrong");
    reveal_strlit("Timelimit Exception");
    reveal_strlit("Runtime Error");
    reveal_strlit("Compiler Error");
    reveal_strlit("Illegal Import");
    assert("Correct"@.len() == 7);
    assert("Wrong"@.len() == 5);
    assert("Timelimit Exception"@.len() == 19);
    assert("Runtime Error"@.len() == 13);
    assert("Compiler Error"@.len() == 14);
    assert("Illegal Import"@.len() == 14);
    assert("Compiler Error"@[0] != "Illegal Import"@[0]);
    assert forall|r: JobResult| #[trigger] parse_result(result_token(r)) == Some(r) by {
        match r {
            JobResult::Correct => {}
            JobResult::Wrong => {}
            JobResult::TimelimitException => {}
            JobResult::RuntimeError => {}
            JobResult::CompilerError => {}
            JobResult::IllegalImport => {}
        }
    }
    assert forall|s: Seq<char>| #[trigger] parse_result(s) is Some implies exists|r: JobResult|
        result_token(r) == s by {
        if s == "Correct"@ {
            assert(result_token(JobResult::Correct) == s);
        } else if s == "Wrong"@ {
            assert(result_token(JobResult::Wrong) == s);
        } else if s == "Timelimit Exception"@ {
            assert(result_token(JobResult::TimelimitException) == s);
        } else if s == "Runtime Error"@ {
            assert(result_token(JobResult::RuntimeError) == s);
        } else if s == "Compiler Error"@ {
            assert(result_token(JobResult::CompilerError) == s);
        } else {
            assert(result_token(JobResult::IllegalImport) == s);
        }
    }
}

} // verus!
