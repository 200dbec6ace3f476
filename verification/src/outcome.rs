//! Typed outcomes of the pipeline's external steps, and the aggregate.
//!
//! The external compiler and inspector report an exit status and output
//! bytes; the functions here turn those into typed outcomes.  A failed
//! compile is non-fatal; a failed extraction omits that one file; a
//! repository reaches the aggregate only with at least one extracted
//! source.

use vstd::prelude::*;

verus! {

/// Why a listing call failed.
#[derive(Clone, Copy, PartialEq, Eq, Structural, Debug)]
pub enum ListingError {
    /// Transport-level failure of the listing call.
    Network,
    /// The response body was not a well-formed array of entries.
    Decode,
    /// The HTTP status reported the repository or path inaccessible.
    NotFoundOrForbidden,
}

/// The outcome of the external compile command.
pub enum CompileOutcome {
    Success,
    Failure { exit_status: i32, stderr: Vec<u8> },
}

/// A failed bytecode extraction: the inspect command's exit status and
/// diagnostic output.
#[derive(Clone, Debug)]
pub struct ExtractionError {
    pub exit_status: i32,
    pub stderr: Vec<u8>,
}

/// A contract source file name with its compiled bytecode.
pub struct EligibleSource {
    pub file_name: Vec<u8>,
    pub bytecode: Vec<u8>,
}

/// One repository's name with the sources extracted from it.
pub struct RepositoryResult {
    pub repository_name: Vec<u8>,
    pub sources: Vec<EligibleSource>,
}

/// The (file name, bytecode) views of a list of extracted sources.
pub open spec fn pairs_of(s: Seq<EligibleSource>) -> Seq<(Seq<u8>, Seq<u8>)> {
    s.map_values(|e: EligibleSource| (e.file_name@, e.bytecode@))
}

/// Classifies one run of the external compile command: exit status zero
/// is success, anything else keeps the status and the diagnostic text.
pub fn interpret_compile(success: bool, exit_status: i32, stderr: Vec<u8>) -> (r: CompileOutcome)
    ensures
        success ==> r is Success,
        !success ==> (r matches CompileOutcome::Failure { exit_status: es, stderr: st }
            && es == exit_status && st@ == stderr@),
{
    if success {
        CompileOutcome::Success
    } else {
        CompileOutcome::Failure { exit_status, stderr }
    }
}

/// Classifies one run of the inspect command: on success the raw
/// standard output is the bytecode, returned unmodified; on failure the
/// exit status and the diagnostic text.
pub fn interpret_extraction(success: bool, exit_status: i32, stdout: Vec<u8>, stderr: Vec<u8>) -> (r:
    Result<Vec<u8>, ExtractionError>)
    ensures
        success ==> (r matches Ok(b) && b@ == stdout@),
        !success ==> (r matches Err(e) && e.exit_status == exit_status && e.stderr@ == stderr@),
{
    if success {
        Ok(stdout)
    } else {
        Err(ExtractionError { exit_status, stderr })
    }
}

/// Adds a finished repository's outcome to the aggregate.  A repository
/// that yielded nothing contributes no entry at all.
pub fn record_repository(all: &mut Vec<RepositoryResult>, outcome: Option<RepositoryResult>)
    ensures
        outcome matches Some(rr) ==> final(all)@ == old(all)@.push(rr),
        outcome is None ==> final(all)@ == old(all)@,
{
    match outcome {
        Some(rr) => all.push(rr),
        None => {},
    }
}

} // verus!
