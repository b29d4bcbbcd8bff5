//! A verified orchestration core for a commit-analysis front end.
//!
//! The library models one run of the tool: validating a repository,
//! validating a commit reference, retrieving the commit's diff, and
//! streaming the output of an external analysis engine back to the
//! caller while managing the staged input artifact on every exit path.
//! All external processes are driven by an unverified shell around the
//! library; the decisions — which step comes next, how each outcome is
//! classified, how chunks are accumulated — are verified here.

pub mod errors;
pub mod text;
pub mod gateway;
pub mod run;
pub mod laws;
