//! The failure taxonomy of one analysis run.

use vstd::prelude::*;

verus! {

/// Everything that can go wrong between receiving a repository path and
/// reporting the engine's result. Each external step has its own variant,
/// so a caller can tell exactly which precondition failed.
#[derive(Debug, PartialEq, Eq)]
pub enum AnalysisError {
    /// The repository check exited with a non-success status.
    NotARepository,
    /// The commit-existence check exited with a non-success status.
    UnknownCommit,
    /// The diff-retrieval command exited with a non-success status.
    DiffRetrievalFailed,
    /// Captured output bytes were not valid UTF-8.
    EncodingFailed,
    /// The diff text could not be persisted for the engine to read.
    StagingFailed,
    /// The engine process could not be launched.
    SpawnFailed,
    /// The engine exited with a non-success status; carries its captured
    /// standard-error text verbatim.
    EngineFailed(String),
}

/// Spec-level picture of an `AnalysisError`: the captured standard-error
/// text is a sequence of characters.
pub enum ErrorModel {
    NotARepository,
    UnknownCommit,
    DiffRetrievalFailed,
    EncodingFailed,
    StagingFailed,
    SpawnFailed,
    EngineFailed(Seq<char>),
}

impl View for AnalysisError {
    type V = ErrorModel;

    open spec fn view(&self) -> ErrorModel {
        match self {
            AnalysisError::NotARepository => ErrorModel::NotARepository,
            AnalysisError::UnknownCommit => ErrorModel::UnknownCommit,
            AnalysisError::DiffRetrievalFailed => ErrorModel::DiffRetrievalFailed,
            AnalysisError::EncodingFailed => ErrorModel::EncodingFailed,
            AnalysisError::StagingFailed => ErrorModel::StagingFailed,
            AnalysisError::SpawnFailed => ErrorModel::SpawnFailed,
            AnalysisError::EngineFailed(stderr) => ErrorModel::EngineFailed(stderr@),
        }
    }
}

impl AnalysisError {
    /// A fixed description of the failed stage. The engine's captured
    /// standard-error text is not folded in here; `engine_stderr` hands
    /// it out separately.
    pub fn message(&self) -> (r: String)
        ensures
            self is NotARepository ==> r@ == "directory is not a valid repository"@,
            self is UnknownCommit ==> r@ == "invalid or non-existent commit reference"@,
            self is DiffRetrievalFailed ==> r@ == "failed to retrieve the commit diff"@,
            self is EncodingFailed ==> r@ == "output was not valid UTF-8"@,
            self is StagingFailed ==> r@ == "failed to stage the diff for the engine"@,
            self is SpawnFailed ==> r@ == "failed to launch the analysis engine"@,
            self is EngineFailed ==> r@ == "the analysis engine reported a failure"@,
    {
        match self {
            AnalysisError::NotARepository => "directory is not a valid repository".to_owned(),
            AnalysisError::UnknownCommit => "invalid or non-existent commit reference".to_owned(),
            AnalysisError::DiffRetrievalFailed => "failed to retrieve the commit diff".to_owned(),
            AnalysisError::EncodingFailed => "output was not valid UTF-8".to_owned(),
            AnalysisError::StagingFailed => "failed to stage the diff for the engine".to_owned(),
            AnalysisError::SpawnFailed => "failed to launch the analysis engine".to_owned(),
            AnalysisError::EngineFailed(_) => "the analysis engine reported a failure".to_owned(),
        }
    }

    /// The engine's captured standard-error text, when this error came
    /// from a non-success engine exit.
    pub fn engine_stderr(&self) -> (r: Option<&String>)
        ensures
            (match r {
                Some(stderr) => self@ matches ErrorModel::EngineFailed(e) && e == stderr@,
                None => !(self is EngineFailed),
            }),
    {
        match self {
            AnalysisError::EngineFailed(stderr) => Some(stderr),
            _ => None,
        }
    }
}

} // verus!
