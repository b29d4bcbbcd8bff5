use halidom::errors::AnalysisError;
use halidom::gateway::ToolOutput;
use halidom::run::{AnalysisRun, Directive, Event, Phase};

fn tool(exit_ok: bool, stdout: &[u8]) -> ToolOutput {
    ToolOutput { exit_ok, stdout: stdout.to_vec() }
}

/// Drives a fresh run through the gateway phases up to `Staging`,
/// handing it the given diff bytes as the retrieval command's output.
fn run_up_to_staging(diff: &[u8]) -> AnalysisRun {
    let mut run = AnalysisRun::new();
    assert_eq!(run.step(Event::RepoChecked(tool(true, b""))), Directive::CheckCommit);
    assert_eq!(run.step(Event::CommitChecked(tool(true, b""))), Directive::FetchDiff);
    let d = run.step(Event::DiffFetched(tool(true, diff)));
    assert_eq!(
        d,
        Directive::StageInput(String::from_utf8(diff.to_vec()).unwrap())
    );
    run
}

#[test]
fn echo_engine_relays_two_chunks_in_order() {
    // A stub engine that echoes its staged input verbatim, in two chunks.
    let diff = "--- a/f\n+++ b/f\n@@ -1 +1 @@\n-old\n+new\n";
    let mut run = run_up_to_staging(diff.as_bytes());
    assert_eq!(run.step(Event::Staged(true)), Directive::SpawnEngine);
    assert_eq!(run.step(Event::Spawned(true)), Directive::ReadOutput);

    let bytes = diff.as_bytes();
    let (first, second) = bytes.split_at(bytes.len() / 2);
    assert_eq!(
        run.step(Event::ChunkRead(first.to_vec())),
        Directive::Relay(first.to_vec())
    );
    assert_eq!(
        run.step(Event::ChunkRead(second.to_vec())),
        Directive::Relay(second.to_vec())
    );
    assert_eq!(run.step(Event::OutputClosed), Directive::AwaitExit);
    assert_eq!(
        run.step(Event::EngineExited(true, String::new())),
        Directive::Cleanup
    );
    match run.outcome() {
        Some(Ok(text)) => assert_eq!(text, diff),
        other => panic!("run should have completed, got {:?}", other),
    }
}

#[test]
fn empty_engine_output_completes_with_empty_text() {
    let mut run = run_up_to_staging(b"+x\n");
    run.step(Event::Staged(true));
    run.step(Event::Spawned(true));
    assert_eq!(run.step(Event::OutputClosed), Directive::AwaitExit);
    assert_eq!(
        run.step(Event::EngineExited(true, String::new())),
        Directive::Cleanup
    );
    assert_eq!(run.outcome(), Some(Ok(String::new())));
}

#[test]
fn nonzero_engine_exit_fails_even_after_relayed_chunks() {
    let mut run = run_up_to_staging(b"+x\n");
    run.step(Event::Staged(true));
    run.step(Event::Spawned(true));
    assert_eq!(
        run.step(Event::ChunkRead(b"partial output".to_vec())),
        Directive::Relay(b"partial output".to_vec())
    );
    run.step(Event::OutputClosed);
    // The exit outcome still ends the run with Cleanup, not success.
    assert_eq!(
        run.step(Event::EngineExited(false, "trace: oom\n".to_string())),
        Directive::Cleanup
    );
    assert_eq!(
        run.outcome(),
        Some(Err(AnalysisError::EngineFailed("trace: oom\n".to_string())))
    );
}

#[test]
fn invalid_utf8_engine_output_is_an_encoding_failure() {
    let mut run = run_up_to_staging(b"+x\n");
    run.step(Event::Staged(true));
    run.step(Event::Spawned(true));
    run.step(Event::ChunkRead(vec![0xff, 0xfe]));
    run.step(Event::OutputClosed);
    assert_eq!(
        run.step(Event::EngineExited(true, String::new())),
        Directive::Cleanup
    );
    assert_eq!(run.outcome(), Some(Err(AnalysisError::EncodingFailed)));
}

#[test]
fn staging_failure_spawns_nothing_and_still_cleans_up() {
    let mut run = run_up_to_staging(b"+x\n");
    assert_eq!(run.step(Event::Staged(false)), Directive::Cleanup);
    // The run is over: nothing later asks for a spawn.
    assert_eq!(run.step(Event::Spawned(true)), Directive::NoOp);
    assert_eq!(run.step(Event::ChunkRead(b"late".to_vec())), Directive::NoOp);
    assert_eq!(run.outcome(), Some(Err(AnalysisError::StagingFailed)));
}

#[test]
fn spawn_failure_is_reported_and_cleaned_up() {
    let mut run = run_up_to_staging(b"+x\n");
    run.step(Event::Staged(true));
    assert_eq!(run.step(Event::Spawned(false)), Directive::Cleanup);
    assert_eq!(run.outcome(), Some(Err(AnalysisError::SpawnFailed)));
}

#[test]
fn failed_repository_check_halts_before_any_retrieval() {
    let mut run = AnalysisRun::new();
    assert_eq!(run.step(Event::RepoChecked(tool(false, b""))), Directive::Halt);
    // Later events are ignored: no commit check, no diff retrieval.
    assert_eq!(run.step(Event::CommitChecked(tool(true, b""))), Directive::NoOp);
    assert_eq!(run.step(Event::DiffFetched(tool(true, b"+x\n"))), Directive::NoOp);
    assert_eq!(run.outcome(), Some(Err(AnalysisError::NotARepository)));
}

#[test]
fn unknown_commit_halts_the_run() {
    let mut run = AnalysisRun::new();
    run.step(Event::RepoChecked(tool(true, b"")));
    assert_eq!(run.step(Event::CommitChecked(tool(false, b""))), Directive::Halt);
    assert_eq!(run.outcome(), Some(Err(AnalysisError::UnknownCommit)));
}

#[test]
fn failed_diff_retrieval_halts_the_run() {
    let mut run = AnalysisRun::new();
    run.step(Event::RepoChecked(tool(true, b"")));
    run.step(Event::CommitChecked(tool(true, b"")));
    assert_eq!(run.step(Event::DiffFetched(tool(false, b""))), Directive::Halt);
    assert_eq!(run.outcome(), Some(Err(AnalysisError::DiffRetrievalFailed)));
}

#[test]
fn undecodable_diff_halts_the_run() {
    let mut run = AnalysisRun::new();
    run.step(Event::RepoChecked(tool(true, b"")));
    run.step(Event::CommitChecked(tool(true, b"")));
    assert_eq!(
        run.step(Event::DiffFetched(tool(true, &[0xc3, 0x28]))),
        Directive::Halt
    );
    assert_eq!(run.outcome(), Some(Err(AnalysisError::EncodingFailed)));
}

#[test]
fn events_out_of_order_are_ignored() {
    let mut run = AnalysisRun::new();
    assert_eq!(run.step(Event::Staged(true)), Directive::NoOp);
    assert_eq!(run.step(Event::OutputClosed), Directive::NoOp);
    assert_eq!(
        run.step(Event::EngineExited(true, String::new())),
        Directive::NoOp
    );
    assert!(matches!(run.phase(), Phase::ValidatingRepo));
    assert_eq!(run.outcome(), None);
}

#[test]
fn phase_follows_the_run() {
    let mut run = AnalysisRun::new();
    assert!(matches!(run.phase(), Phase::ValidatingRepo));
    run.step(Event::RepoChecked(tool(true, b"")));
    assert!(matches!(run.phase(), Phase::ValidatingCommit));
    run.step(Event::CommitChecked(tool(true, b"")));
    assert!(matches!(run.phase(), Phase::FetchingDiff));
    run.step(Event::DiffFetched(tool(true, b"+x\n")));
    assert!(matches!(run.phase(), Phase::Staging));
    run.step(Event::Staged(true));
    assert!(matches!(run.phase(), Phase::Spawning));
    run.step(Event::Spawned(true));
    assert!(matches!(run.phase(), Phase::Streaming));
    run.step(Event::OutputClosed);
    assert!(matches!(run.phase(), Phase::Draining));
    run.step(Event::EngineExited(true, String::new()));
    assert!(matches!(run.phase(), Phase::Completed(_)));
}
