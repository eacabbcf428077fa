//! Paths of the two on-disk trees the daemon owns.
//!
//! `problems/<id>/` holds a cached `(input, expected output)` pair and survives
//! restarts; `jobs/<id>/` is the per-submission scratch directory shared with
//! the sandbox through a bind mount.  The functions here build every path the
//! daemon touches, so that the staging and classification steps agree on them.

use vstd::prelude::*;
use vstd::string::StringExecFns;
use crate::runner::Languages;
use crate::text::{dec_int, i32_to_string};

verus! {

/// A submission's scratch directory, `./jobs/<id>`.
pub open spec fn job_dir_spec(id: int) -> Seq<char> {
    "./jobs/"@ + dec_int(id)
}

/// A file inside a submission's scratch directory.
pub open spec fn job_file_spec(id: int, file: Seq<char>) -> Seq<char> {
    job_dir_spec(id) + "/"@ + file
}

/// A problem's cache directory, `problems/<id>`.
pub open spec fn problem_dir_spec(problem: int) -> Seq<char> {
    "problems/"@ + dec_int(problem)
}

/// A file inside a problem's cache directory.
pub open spec fn problem_file_spec(problem: int, file: Seq<char>) -> Seq<char> {
    problem_dir_spec(problem) + "/"@ + file
}

/// The solution file name for a language, `solution.<ext>`.
pub open spec fn solution_file_spec(language: Languages) -> Seq<char> {
    match language {
        Languages::Python => "solution.py"@,
        Languages::Java => "solution.java"@,
        Languages::Cpp => "solution.cpp"@,
    }
}

/// Builds `./jobs/<id>`.
pub fn job_dir(id: i32) -> (r: String)
    ensures
        r@ == job_dir_spec(id as int),
{
    let mut s = String::from_str("./jobs/");
    let digits = i32_to_string(id);
    s.append(digits.as_str());
    s
}

/// Builds `./jobs/<id>/<file>`.
pub fn job_file(id: i32, file: &str) -> (r: String)
    ensures
        r@ == job_file_spec(id as int, file@),
{
    let mut s = job_dir(id);
    s.append("/");
    s.append(file);
    proof {
        assert(s@ =~= job_file_spec(id as int, file@));
    }
    s
}

/// Builds `./jobs/<id>/status.txt`, the sandbox's sentinel file.
pub fn job_status_path(id: i32) -> (r: String)
    ensures
        r@ == job_file_spec(id as int, "status.txt"@),
{
    job_file(id, "status.txt")
}

/// Builds `problems/<id>`.
pub fn problem_dir(problem: i32) -> (r: String)
    ensures
        r@ == problem_dir_spec(problem as int),
{
    let mut s = String::from_str("problems/");
    let digits = i32_to_string(problem);
    s.append(digits.as_str());
    s
}

/// Builds `problems/<id>/<file>`.
pub fn problem_file(problem: i32, file: &str) -> (r: String)
    ensures
        r@ == problem_file_spec(problem as int, file@),
{
    let mut s = problem_dir(problem);
    s.append("/");
    s.append(file);
    proof {
        assert(s@ =~= problem_file_spec(problem as int, file@));
    }
    s
}

/// The solution file name the sandbox expects for a language.
pub fn solution_file(language: Languages) -> (r: String)
    ensures
        r@ == solution_file_spec(language),
{
    match language {
        Languages::Python => String::from_str("solution.py"),
        Languages::Java => String::from_str("solution.java"),
        Languages::Cpp => String::from_str("solution.cpp"),
    }
}

} // verus!
