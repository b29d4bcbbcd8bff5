//! The guarantees the run gives as a whole, stated over entire event
//! traces and proved from the transition relation alone.

use vstd::prelude::*;
use crate::errors::ErrorModel;
use crate::gateway::ToolOutputModel;
use crate::run::{init_model, step_model, DirectiveModel, EventModel, PhaseModel, RunModel};
use crate::text::utf8_decode;

verus! {

/// A run is over once it is `Completed` or `Failed`.
pub open spec fn is_terminal(p: PhaseModel) -> bool {
    p is Completed || p is Failed
}

/// The phases during which a staged input artifact exists: from the
/// moment staging is requested until the run ends.
pub open spec fn staging_begun(p: PhaseModel) -> bool {
    ||| p is Staging
    ||| p is Spawning
    ||| p is Streaming
    ||| p is Draining
}

/// Folds a whole sequence of events through `step_model`, collecting
/// the directives issued along the way.
pub open spec fn run_model(m: RunModel, evs: Seq<EventModel>) -> (RunModel, Seq<DirectiveModel>)
    decreases evs.len(),
{
    if evs.len() == 0 {
        (m, Seq::empty())
    } else {
        let (m1, d1) = step_model(m, evs[0]);
        let (m2, ds) = run_model(m1, evs.skip(1));
        (m2, seq![d1] + ds)
    }
}

/// The chunks that a directive sequence orders the driver to relay, in
/// order.
pub open spec fn relayed_chunks(ds: Seq<DirectiveModel>) -> Seq<Seq<u8>>
    decreases ds.len(),
{
    if ds.len() == 0 {
        Seq::empty()
    } else {
        let rest = relayed_chunks(ds.skip(1));
        match ds[0] {
            DirectiveModel::Relay(chunk) => seq![chunk] + rest,
            _ => rest,
        }
    }
}

/// The run's bookkeeping invariant: the accumulated bytes are exactly
/// the concatenation of the chunks relayed so far, and a completed run
/// carries the decoding of those bytes.
pub open spec fn wf(m: RunModel) -> bool {
    &&& m.accumulated == m.relayed.flatten()
    &&& (m.phase matches PhaseModel::Completed(text) ==> utf8_decode(m.accumulated) == Some(
        text,
    ))
}

/// One step preserves the invariant and appends to the relayed chunks
/// exactly what its directive orders relayed.
proof fn lemma_step_preserves_wf(m: RunModel, ev: EventModel)
    requires
        wf(m),
    ensures
        ({
            let (m2, d) = step_model(m, ev);
            &&& wf(m2)
            &&& m2.relayed =~= m.relayed + relayed_chunks(seq![d])
        }),
{
    reveal_with_fuel(relayed_chunks, 2);
    let (m2, d) = step_model(m, ev);
    match d {
        DirectiveModel::Relay(chunk) => {
            m.relayed.lemma_flatten_push(chunk);
            assert(relayed_chunks(seq![d]) =~= seq![chunk]);
            assert(m2.relayed =~= m.relayed + seq![chunk]);
        },
        _ => {
            assert(relayed_chunks(seq![d]) =~= Seq::<Seq<u8>>::empty());
            assert(m2.relayed =~= m.relayed + relayed_chunks(seq![d]));
        },
    }
}

/// Running any events from a well-formed state keeps it well-formed,
/// and the state's relayed chunks grow by exactly the chunks the issued
/// directives carry.
pub proof fn lemma_run_preserves_wf(m: RunModel, evs: Seq<EventModel>)
    requires
        wf(m),
    ensures
        ({
            let (m2, ds) = run_model(m, evs);
            &&& wf(m2)
            &&& m2.relayed =~= m.relayed + relayed_chunks(ds)
        }),
    decreases evs.len(),
{
    if evs.len() == 0 {
        assert(m.relayed + relayed_chunks(Seq::empty()) =~= m.relayed);
    } else {
        let (m1, d1) = step_model(m, evs[0]);
        lemma_step_preserves_wf(m, evs[0]);
        lemma_run_preserves_wf(m1, evs.skip(1));
        let (m2, ds) = run_model(m1, evs.skip(1));
        let all = seq![d1] + ds;
        assert(all.skip(1) =~= ds);
        assert(relayed_chunks(seq![d1]) + relayed_chunks(ds) =~= relayed_chunks(all)) by {
            reveal_with_fuel(relayed_chunks, 2);
        };
        assert(m2.relayed =~= m.relayed + relayed_chunks(all));
    }
}

/// Law: for a run that completes successfully, the concatenation of all
/// chunks the driver was directed to relay decodes to exactly the
/// returned analysis text — no chunk lost, none duplicated, order
/// preserved.
pub proof fn lemma_relayed_chunks_match_result(evs: Seq<EventModel>)
    ensures
        ({
            let (m, ds) = run_model(init_model(), evs);
            m.phase matches PhaseModel::Completed(text) ==> utf8_decode(
                relayed_chunks(ds).flatten(),
            ) == Some(text)
        }),
{
    assert(wf(init_model()));
    lemma_run_preserves_wf(init_model(), evs);
    let (m, ds) = run_model(init_model(), evs);
    assert(m.relayed =~= relayed_chunks(ds));
}

/// Law: once a run is over it stays over — further events change
/// nothing, and every further directive is `NoOp`.
pub proof fn lemma_terminal_absorbing(m: RunModel, evs: Seq<EventModel>)
    requires
        is_terminal(m.phase),
    ensures
        ({
            let (m2, ds) = run_model(m, evs);
            &&& m2 == m
            &&& forall|i: int| 0 <= i < ds.len() ==> ds[i] == DirectiveModel::NoOp
        }),
    decreases evs.len(),
{
    if evs.len() > 0 {
        let (m1, d1) = step_model(m, evs[0]);
        lemma_terminal_absorbing(m1, evs.skip(1));
        let (m2, ds) = run_model(m1, evs.skip(1));
        let all = seq![d1] + ds;
        assert forall|i: int| 0 <= i < all.len() implies all[i] == DirectiveModel::NoOp by {
            if i > 0 {
                assert(all[i] == ds[i - 1]);
            }
        }
    }
}

/// Law: from the moment staging is requested, every transition that
/// ends the run orders removal of the staged input — on success, engine
/// failure, spawn failure and staging failure alike.
pub proof fn lemma_cleanup_on_termination(m: RunModel, ev: EventModel)
    requires
        staging_begun(m.phase),
    ensures
        ({
            let (m2, d) = step_model(m, ev);
            is_terminal(m2.phase) ==> d == DirectiveModel::Cleanup
        }),
{
}

/// Law: a non-success engine exit is reported as `EngineFailed`
/// carrying the captured standard-error text, however many chunks were
/// already relayed, and the staged input is removed on that very
/// transition. Chunks already delivered are not retracted: the state's
/// relayed chunks are untouched.
pub proof fn lemma_engine_failure_reported(m: RunModel, stderr: Seq<char>)
    requires
        m.phase is Draining,
    ensures
        ({
            let (m2, d) = step_model(m, EventModel::EngineExited(false, stderr));
            &&& m2.phase == PhaseModel::Failed(ErrorModel::EngineFailed(stderr))
            &&& m2.relayed == m.relayed
            &&& d == DirectiveModel::Cleanup
        }),
{
}

/// Law: when staging fails, no engine process is ever spawned — the run
/// fails with `StagingFailed` at once, and no directive issued then or
/// later is `SpawnEngine`.
pub proof fn lemma_no_spawn_after_staging_failure(m: RunModel, evs: Seq<EventModel>)
    requires
        m.phase is Staging,
        evs.len() > 0,
        evs[0] == EventModel::Staged(false),
    ensures
        ({
            let (m2, ds) = run_model(m, evs);
            &&& m2.phase == PhaseModel::Failed(ErrorModel::StagingFailed)
            &&& forall|i: int| 0 <= i < ds.len() ==> ds[i] != DirectiveModel::SpawnEngine
        }),
{
    let (m1, d1) = step_model(m, evs[0]);
    lemma_terminal_absorbing(m1, evs.skip(1));
    let (m2, ds) = run_model(m1, evs.skip(1));
    let all = seq![d1] + ds;
    assert forall|i: int| 0 <= i < all.len() implies all[i] != DirectiveModel::SpawnEngine by {
        if i > 0 {
            assert(all[i] == ds[i - 1]);
        }
    }
}

/// Law: when the repository check reports a non-success exit, the run
/// fails with `NotARepository` and no diff retrieval is ever requested.
pub proof fn lemma_no_fetch_after_repo_failure(evs: Seq<EventModel>)
    requires
        evs.len() > 0,
        (evs[0] matches EventModel::RepoChecked(out) && !out.exit_ok),
    ensures
        ({
            let (m2, ds) = run_model(init_model(), evs);
            &&& m2.phase == PhaseModel::Failed(ErrorModel::NotARepository)
            &&& forall|i: int| 0 <= i < ds.len() ==> ds[i] != DirectiveModel::FetchDiff
        }),
{
    let (m1, d1) = step_model(init_model(), evs[0]);
    lemma_terminal_absorbing(m1, evs.skip(1));
    let (m2, ds) = run_model(m1, evs.skip(1));
    let all = seq![d1] + ds;
    assert forall|i: int| 0 <= i < all.len() implies all[i] != DirectiveModel::FetchDiff by {
        if i > 0 {
            assert(all[i] == ds[i - 1]);
        }
    }
}

/// The phases in which no staging has been requested yet. Once a run
/// leaves them it never returns.
pub open spec fn awaiting_staging(p: PhaseModel) -> bool {
    ||| p is ValidatingRepo
    ||| p is ValidatingCommit
    ||| p is FetchingDiff
}

/// The phases in which no engine launch has been requested yet. Once a
/// run leaves them it never returns.
pub open spec fn awaiting_spawn(p: PhaseModel) -> bool {
    awaiting_staging(p) || p is Staging
}

/// How many directives in a sequence ask for an input to be staged.
pub open spec fn count_stage_directives(ds: Seq<DirectiveModel>) -> nat
    decreases ds.len(),
{
    if ds.len() == 0 {
        0
    } else {
        (if ds[0] is StageInput {
            1nat
        } else {
            0nat
        }) + count_stage_directives(ds.skip(1))
    }
}

/// How many directives in a sequence ask for an engine launch.
pub open spec fn count_spawn_directives(ds: Seq<DirectiveModel>) -> nat
    decreases ds.len(),
{
    if ds.len() == 0 {
        0
    } else {
        (if ds[0] is SpawnEngine {
            1nat
        } else {
            0nat
        }) + count_spawn_directives(ds.skip(1))
    }
}

/// Staging is requested exactly on leaving `FetchingDiff`: never before
/// reaching it, at most once ever, and exactly once on any run that
/// goes on to hold a staged input.
proof fn lemma_stage_count(m: RunModel, evs: Seq<EventModel>)
    ensures
        ({
            let (m2, ds) = run_model(m, evs);
            &&& awaiting_staging(m.phase) ==> count_stage_directives(ds) <= 1
            &&& !awaiting_staging(m.phase) ==> count_stage_directives(ds) == 0
            &&& awaiting_staging(m.phase) && staging_begun(m2.phase) ==> count_stage_directives(
                ds,
            ) == 1
        }),
    decreases evs.len(),
{
    reveal_with_fuel(count_stage_directives, 2);
    if evs.len() > 0 {
        let (m1, d1) = step_model(m, evs[0]);
        lemma_stage_count(m1, evs.skip(1));
        if is_terminal(m1.phase) {
            lemma_terminal_absorbing(m1, evs.skip(1));
        }
        let (m2, ds) = run_model(m1, evs.skip(1));
        let all = seq![d1] + ds;
        assert(all.skip(1) =~= ds);
    }
}

/// The engine launch is requested exactly on leaving `Staging`: never
/// before reaching it, at most once ever, and exactly once on any run
/// that goes on to stream or drain engine output.
proof fn lemma_spawn_count(m: RunModel, evs: Seq<EventModel>)
    ensures
        ({
            let (m2, ds) = run_model(m, evs);
            &&& awaiting_spawn(m.phase) ==> count_spawn_directives(ds) <= 1
            &&& !awaiting_spawn(m.phase) ==> count_spawn_directives(ds) == 0
            &&& awaiting_spawn(m.phase) && (m2.phase is Spawning || m2.phase is Streaming
                || m2.phase is Draining) ==> count_spawn_directives(ds) == 1
        }),
    decreases evs.len(),
{
    reveal_with_fuel(count_spawn_directives, 2);
    if evs.len() > 0 {
        let (m1, d1) = step_model(m, evs[0]);
        lemma_spawn_count(m1, evs.skip(1));
        if is_terminal(m1.phase) {
            lemma_terminal_absorbing(m1, evs.skip(1));
        }
        let (m2, ds) = run_model(m1, evs.skip(1));
        let all = seq![d1] + ds;
        assert(all.skip(1) =~= ds);
    }
}

/// Law: one staged input artifact per run — a whole run asks for
/// staging at most once, and exactly once when it gets as far as
/// holding a staged input.
pub proof fn lemma_one_staged_input_per_run(evs: Seq<EventModel>)
    ensures
        ({
            let (m2, ds) = run_model(init_model(), evs);
            &&& count_stage_directives(ds) <= 1
            &&& staging_begun(m2.phase) ==> count_stage_directives(ds) == 1
        }),
{
    lemma_stage_count(init_model(), evs);
}

/// Law: one child engine process per run — a whole run asks for an
/// engine launch at most once, and exactly once when it gets as far as
/// streaming or draining engine output.
pub proof fn lemma_one_engine_process_per_run(evs: Seq<EventModel>)
    ensures
        ({
            let (m2, ds) = run_model(init_model(), evs);
            &&& count_spawn_directives(ds) <= 1
            &&& m2.phase is Streaming || m2.phase is Draining ==> count_spawn_directives(ds) == 1
        }),
{
    lemma_spawn_count(init_model(), evs);
}

/// Law: success is never reported early — a run only becomes
/// `Completed` on the transition that consumes a successful engine
/// exit, after the output stream is drained.
pub proof fn lemma_completion_needs_engine_exit(m: RunModel, ev: EventModel)
    requires
        !(m.phase is Completed),
    ensures
        ({
            let (m2, d) = step_model(m, ev);
            m2.phase is Completed ==> m.phase is Draining && (ev matches
            EventModel::EngineExited(exit_ok, _) && exit_ok)
        }),
{
}

/// Law: a commit reference the tool reports as unknown fails the run
/// with `UnknownCommit`.
pub proof fn lemma_unknown_commit_reported(m: RunModel, out: ToolOutputModel)
    requires
        m.phase is ValidatingCommit,
        !out.exit_ok,
    ensures
        ({
            let (m2, d) = step_model(m, EventModel::CommitChecked(out));
            &&& m2.phase == PhaseModel::Failed(ErrorModel::UnknownCommit)
            &&& d == DirectiveModel::Halt
        }),
{
}

} // verus!
