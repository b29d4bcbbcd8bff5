//! The repository gateway: classifying what the external version-control
//! tool reported.
//!
//! The tool itself runs outside the library; each invocation hands back a
//! `ToolOutput` (exit status and captured standard output), and the
//! functions here turn that outcome into the library's own verdicts.

use vstd::prelude::*;
use crate::errors::{AnalysisError, ErrorModel};
use crate::text::{decode_utf8, utf8_decode};

verus! {

/// What one invocation of the external version-control tool produced:
/// whether it exited with a success status, and its captured standard
/// output bytes.
#[derive(Debug)]
pub struct ToolOutput {
    pub exit_ok: bool,
    pub stdout: Vec<u8>,
}

/// Spec-level picture of a tool invocation's outcome.
pub struct ToolOutputModel {
    pub exit_ok: bool,
    pub stdout: Seq<u8>,
}

impl View for ToolOutput {
    type V = ToolOutputModel;

    open spec fn view(&self) -> ToolOutputModel {
        ToolOutputModel { exit_ok: self.exit_ok, stdout: self.stdout@ }
    }
}

/// The verdict of the repository check: the directory is a repository
/// exactly when the tool exited with success.
pub fn validate_repository(out: &ToolOutput) -> (r: Result<(), AnalysisError>)
    ensures
        out.exit_ok ==> r is Ok,
        !out.exit_ok ==> (r matches Err(e) && e is NotARepository),
{
    if out.exit_ok {
        Ok(())
    } else {
        Err(AnalysisError::NotARepository)
    }
}

/// The verdict of the commit-existence check: the reference resolves to a
/// commit exactly when the tool exited with success.
pub fn validate_commit(out: &ToolOutput) -> (r: Result<(), AnalysisError>)
    ensures
        out.exit_ok ==> r is Ok,
        !out.exit_ok ==> (r matches Err(e) && e is UnknownCommit),
{
    if out.exit_ok {
        Ok(())
    } else {
        Err(AnalysisError::UnknownCommit)
    }
}

/// The diff text that a diff-retrieval outcome yields: a non-success exit
/// is a retrieval failure, and output bytes that are not valid UTF-8 are
/// an encoding failure; otherwise the decoded text itself.
pub open spec fn diff_of_output(out: ToolOutputModel) -> Result<Seq<char>, ErrorModel> {
    if !out.exit_ok {
        Err(ErrorModel::DiffRetrievalFailed)
    } else {
        match utf8_decode(out.stdout) {
            Some(text) => Ok(text),
            None => Err(ErrorModel::EncodingFailed),
        }
    }
}

/// Turns the outcome of the diff-retrieval command into the diff text,
/// exactly as `diff_of_output` says. When the tool succeeded and printed
/// anything at all, a successfully decoded diff is non-empty.
pub fn get_commit_diff(out: &ToolOutput) -> (r: Result<String, AnalysisError>)
    ensures
        (match r {
            Ok(text) => diff_of_output(out@) == Ok::<Seq<char>, ErrorModel>(text@),
            Err(e) => diff_of_output(out@) == Err::<Seq<char>, ErrorModel>(e@),
        }),
        out.exit_ok && out.stdout@.len() > 0 ==> (r matches Ok(text) ==> text@.len() > 0),
{
    if !out.exit_ok {
        Err(AnalysisError::DiffRetrievalFailed)
    } else {
        match decode_utf8(&out.stdout) {
            Some(text) => Ok(text),
            None => Err(AnalysisError::EncodingFailed),
        }
    }
}

/// Law: diff retrieval is deterministic on the library's side. Two tool
/// invocations that exited the same way with the same output bytes yield
/// the same diff text. (That the tool itself reports the same bytes for
/// an unchanged repository is the tool's own contract.)
pub proof fn lemma_diff_retrieval_deterministic(a: ToolOutputModel, b: ToolOutputModel)
    requires
        a.exit_ok == b.exit_ok,
        a.stdout == b.stdout,
    ensures
        diff_of_output(a) == diff_of_output(b),
{
}

} // verus!
