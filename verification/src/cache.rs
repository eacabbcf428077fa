//! The problem cache's validity decision and refill classification.
//!
//! A problem is cached as two files under `problems/<id>/`: `input.txt` and
//! `output.txt`.  Validity is decided per lookup by re-hashing both files and
//! comparing against the checksums the coordinator sent with the submission.
//! The filesystem reads live outside this crate; [`check_cache`] decides from
//! the contents.

use vstd::prelude::*;
use crate::error::Errors;
use crate::text::str_eq;

verus! {

/// The decoded body of a successful problem-fetch response.
#[derive(Debug)]
pub struct Problem {
    pub problem_input: String,
    pub problem_output: String,
}

/// The lowercase hex MD5 digest of a text, a function of the text alone.
pub uninterp spec fn md5_hex_of(s: Seq<char>) -> Seq<char>;

/// Relies on md5::compute (RFC 1321) and Digest's LowerHex rendering, which
/// writes each of the 16 digest bytes as two lowercase hex digits; the result
/// depends on the input text alone.
#[verifier::external_body]
fn md5_hex(s: &str) -> (r: String)
    ensures
        r@ == md5_hex_of(s@),
{
    format!("{:x}", md5::compute(s.as_bytes()))
}

/// What the cache check returns, given whether the problem directory exists,
/// the two file contents, and the checksums the submission carries.
pub open spec fn cache_check_spec(
    dir_exists: bool,
    input: Seq<char>,
    output: Seq<char>,
    input_sum: Seq<char>,
    output_sum: Seq<char>,
) -> bool {
    dir_exists && md5_hex_of(input) == input_sum && md5_hex_of(output) == output_sum
}

/// Decides whether a cached problem is valid: the directory must exist and the
/// MD5 digests of both files must equal the supplied checksums.  A missing
/// directory is an invalid cache entry, not an error.
pub fn check_cache(
    dir_exists: bool,
    input: &str,
    output: &str,
    input_sum: &str,
    output_sum: &str,
) -> (r: bool)
    ensures
        r == cache_check_spec(dir_exists, input@, output@, input_sum@, output_sum@),
{
    if !dir_exists {
        return false;
    }
    let input_hash = md5_hex(input);
    if !str_eq(input_hash.as_str(), input_sum) {
        return false;
    }
    let output_hash = md5_hex(output);
    if !str_eq(output_hash.as_str(), output_sum) {
        return false;
    }
    true
}

/// Law: the cache check is a function of the directory contents and the
/// supplied checksums alone, so once it holds it keeps holding until something
/// external modifies the directory.
pub proof fn lemma_check_cache_monotonic(
    dir_exists: bool,
    input: Seq<char>,
    output: Seq<char>,
    later_dir_exists: bool,
    later_input: Seq<char>,
    later_output: Seq<char>,
    input_sum: Seq<char>,
    output_sum: Seq<char>,
)
    requires
        cache_check_spec(dir_exists, input, output, input_sum, output_sum),
        later_dir_exists == dir_exists,
        later_input == input,
        later_output == output,
    ensures
        cache_check_spec(later_dir_exists, later_input, later_output, input_sum, output_sum),
{
}

/// Classifies a problem-fetch exchange: a 200 with a well-shaped body yields
/// the problem; a 200 whose body did not decode is a `ProblemFetchError`; any
/// other status is a `RavelError`.
pub fn classify_problem_response(status: u16, parsed: Option<Problem>) -> (r: Result<
    Problem,
    Errors,
>)
    ensures
        status == 200 && parsed is Some ==> (r matches Ok(p) && p == parsed->0),
        status == 200 && parsed is None ==> r == Err::<Problem, Errors>(Errors::ProblemFetchError),
        status != 200 ==> r == Err::<Problem, Errors>(Errors::RavelError),
{
    if status == 200 {
        match parsed {
            Some(p) => Ok(p),
            None => Err(Errors::ProblemFetchError),
        }
    } else {
        Err(Errors::RavelError)
    }
}

/// The modelled contents of one problem directory: each file is present or
/// absent.
pub struct ProblemDirModel {
    pub input_file: Option<Seq<char>>,
    pub output_file: Option<Seq<char>>,
}

/// The modelled `problems/` tree: the directories that exist, by problem id.
pub struct ProblemStoreModel {
    pub dirs: Map<int, ProblemDirModel>,
}

impl ProblemStoreModel {
    /// Every directory that exists holds both files.
    pub open spec fn complete(self) -> bool {
        forall|p: int| self.dirs.dom().contains(p) ==> (#[trigger] self.dirs[p]).input_file
            is Some && self.dirs[p].output_file is Some
    }

    /// The store after a refill of problem `p` ran to completion: the old
    /// directory was removed and both files were written anew.
    pub open spec fn refilled(self, p: int, input: Seq<char>, output: Seq<char>) -> Self {
        ProblemStoreModel {
            dirs: self.dirs.insert(
                p,
                ProblemDirModel { input_file: Some(input), output_file: Some(output) },
            ),
        }
    }
}

/// Law: a completed refill keeps every problem directory fully populated, so a
/// directory that exists always holds both `input.txt` and `output.txt`.  A
/// refill that fails between the remove and the second write may leave a
/// partial directory behind; that path is outside this statement, and the next
/// cache check then simply reports the entry invalid.
pub proof fn lemma_refill_preserves_complete(
    store: ProblemStoreModel,
    p: int,
    input: Seq<char>,
    output: Seq<char>,
)
    requires
        store.complete(),
    ensures
        store.refilled(p, input, output).complete(),
{
}

} // verus!
