//! One run of the analyzer, as an explicit state machine.
//!
//! The run owns no process and touches no file itself. An unverified
//! driver performs each blocking operation (running the version-control
//! tool, staging the diff, spawning the engine, reading its output,
//! waiting for it to exit, removing the staged input) and reports the
//! outcome as an [`Event`]; [`AnalysisRun::step`] decides what the
//! outcome means and answers with the next [`Directive`]. Every decision
//! — which step comes next, how each failure is classified, how output
//! chunks are accumulated — is made here, and verified against
//! [`step_model`].
//!
//! Engine output is relayed as raw byte chunks; UTF-8 validity is
//! enforced once, on the final accumulated result.

use vstd::prelude::*;
use crate::errors::{AnalysisError, ErrorModel};
use crate::gateway::{
    get_commit_diff, validate_commit, validate_repository, ToolOutput, ToolOutputModel,
};
use crate::text::{decode_utf8, utf8_decode};

verus! {

/// Where one run stands. A run begins at `ValidatingRepo` and ends in
/// `Completed` (carrying the full analysis text) or `Failed` (carrying
/// the most specific error available).
#[derive(Debug, PartialEq)]
pub enum Phase {
    ValidatingRepo,
    ValidatingCommit,
    FetchingDiff,
    Staging,
    Spawning,
    Streaming,
    Draining,
    Completed(String),
    Failed(AnalysisError),
}

/// Spec-level picture of a phase.
pub enum PhaseModel {
    ValidatingRepo,
    ValidatingCommit,
    FetchingDiff,
    Staging,
    Spawning,
    Streaming,
    Draining,
    Completed(Seq<char>),
    Failed(ErrorModel),
}

impl View for Phase {
    type V = PhaseModel;

    open spec fn view(&self) -> PhaseModel {
        match self {
            Phase::ValidatingRepo => PhaseModel::ValidatingRepo,
            Phase::ValidatingCommit => PhaseModel::ValidatingCommit,
            Phase::FetchingDiff => PhaseModel::FetchingDiff,
            Phase::Staging => PhaseModel::Staging,
            Phase::Spawning => PhaseModel::Spawning,
            Phase::Streaming => PhaseModel::Streaming,
            Phase::Draining => PhaseModel::Draining,
            Phase::Completed(text) => PhaseModel::Completed(text@),
            Phase::Failed(e) => PhaseModel::Failed(e@),
        }
    }
}

/// What the driver observed: the outcome of the blocking operation it
/// was last directed to perform.
#[derive(Debug)]
pub enum Event {
    /// Outcome of the repository check.
    RepoChecked(ToolOutput),
    /// Outcome of the commit-existence check.
    CommitChecked(ToolOutput),
    /// Outcome of the diff-retrieval command.
    DiffFetched(ToolOutput),
    /// Whether the diff text was persisted into a fresh staged file.
    Staged(bool),
    /// Whether the engine process was launched.
    Spawned(bool),
    /// One chunk of engine output arrived.
    ChunkRead(Vec<u8>),
    /// The engine's output stream ended (end of stream or read failure).
    OutputClosed,
    /// The engine exited: success status, and captured standard error.
    EngineExited(bool, String),
}

/// Spec-level picture of an event.
pub enum EventModel {
    RepoChecked(ToolOutputModel),
    CommitChecked(ToolOutputModel),
    DiffFetched(ToolOutputModel),
    Staged(bool),
    Spawned(bool),
    ChunkRead(Seq<u8>),
    OutputClosed,
    EngineExited(bool, Seq<char>),
}

impl View for Event {
    type V = EventModel;

    open spec fn view(&self) -> EventModel {
        match self {
            Event::RepoChecked(out) => EventModel::RepoChecked(out@),
            Event::CommitChecked(out) => EventModel::CommitChecked(out@),
            Event::DiffFetched(out) => EventModel::DiffFetched(out@),
            Event::Staged(ok) => EventModel::Staged(*ok),
            Event::Spawned(ok) => EventModel::Spawned(*ok),
            Event::ChunkRead(chunk) => EventModel::ChunkRead(chunk@),
            Event::OutputClosed => EventModel::OutputClosed,
            Event::EngineExited(ok, stderr) => EventModel::EngineExited(*ok, stderr@),
        }
    }
}

/// What the driver must do next. Each non-terminal directive names
/// exactly one blocking operation; `Cleanup`, `Halt` and `NoOp` end or
/// ignore the exchange.
#[derive(Debug, PartialEq)]
pub enum Directive {
    /// Run the commit-existence check.
    CheckCommit,
    /// Run the diff-retrieval command.
    FetchDiff,
    /// Write this diff text to a fresh, uniquely named staged file.
    StageInput(String),
    /// Launch the engine process.
    SpawnEngine,
    /// Begin reading the engine's output stream.
    ReadOutput,
    /// Write this chunk to the caller's output now, then keep reading.
    Relay(Vec<u8>),
    /// Wait for the engine process to exit.
    AwaitExit,
    /// The run is over; remove the staged input.
    Cleanup,
    /// The run is over; nothing was ever staged.
    Halt,
    /// The event did not apply to the current phase; nothing to do.
    NoOp,
}

/// Spec-level picture of a directive.
pub enum DirectiveModel {
    CheckCommit,
    FetchDiff,
    StageInput(Seq<char>),
    SpawnEngine,
    ReadOutput,
    Relay(Seq<u8>),
    AwaitExit,
    Cleanup,
    Halt,
    NoOp,
}

impl View for Directive {
    type V = DirectiveModel;

    open spec fn view(&self) -> DirectiveModel {
        match self {
            Directive::CheckCommit => DirectiveModel::CheckCommit,
            Directive::FetchDiff => DirectiveModel::FetchDiff,
            Directive::StageInput(text) => DirectiveModel::StageInput(text@),
            Directive::SpawnEngine => DirectiveModel::SpawnEngine,
            Directive::ReadOutput => DirectiveModel::ReadOutput,
            Directive::Relay(chunk) => DirectiveModel::Relay(chunk@),
            Directive::AwaitExit => DirectiveModel::AwaitExit,
            Directive::Cleanup => DirectiveModel::Cleanup,
            Directive::Halt => DirectiveModel::Halt,
            Directive::NoOp => DirectiveModel::NoOp,
        }
    }
}

/// Spec-level picture of a whole run: the phase, the bytes accumulated
/// from the engine so far, and the chunks relayed so far, in order.
#[verifier::ext_equal]
pub struct RunModel {
    pub phase: PhaseModel,
    pub accumulated: Seq<u8>,
    pub relayed: Seq<Seq<u8>>,
}

/// The state a fresh run starts in.
pub open spec fn init_model() -> RunModel {
    RunModel {
        phase: PhaseModel::ValidatingRepo,
        accumulated: Seq::empty(),
        relayed: Seq::empty(),
    }
}

/// The transition relation of one run: what each event means in each
/// phase, and what the driver is told to do next. Events that do not
/// apply to the current phase (including anything after a terminal
/// phase) change nothing.
pub open spec fn step_model(m: RunModel, ev: EventModel) -> (RunModel, DirectiveModel) {
    match (m.phase, ev) {
        (PhaseModel::ValidatingRepo, EventModel::RepoChecked(out)) => if out.exit_ok {
            (
                RunModel { phase: PhaseModel::ValidatingCommit, ..m },
                DirectiveModel::CheckCommit,
            )
        } else {
            (
                RunModel { phase: PhaseModel::Failed(ErrorModel::NotARepository), ..m },
                DirectiveModel::Halt,
            )
        },
        (PhaseModel::ValidatingCommit, EventModel::CommitChecked(out)) => if out.exit_ok {
            (RunModel { phase: PhaseModel::FetchingDiff, ..m }, DirectiveModel::FetchDiff)
        } else {
            (
                RunModel { phase: PhaseModel::Failed(ErrorModel::UnknownCommit), ..m },
                DirectiveModel::Halt,
            )
        },
        (PhaseModel::FetchingDiff, EventModel::DiffFetched(out)) => match crate::gateway::diff_of_output(out) {
            Ok(text) => (
                RunModel { phase: PhaseModel::Staging, ..m },
                DirectiveModel::StageInput(text),
            ),
            Err(e) => (
                RunModel { phase: PhaseModel::Failed(e), ..m },
                DirectiveModel::Halt,
            ),
        },
        (PhaseModel::Staging, EventModel::Staged(ok)) => if ok {
            (RunModel { phase: PhaseModel::Spawning, ..m }, DirectiveModel::SpawnEngine)
        } else {
            (
                RunModel { phase: PhaseModel::Failed(ErrorModel::StagingFailed), ..m },
                DirectiveModel::Cleanup,
            )
        },
        (PhaseModel::Spawning, EventModel::Spawned(ok)) => if ok {
            (RunModel { phase: PhaseModel::Streaming, ..m }, DirectiveModel::ReadOutput)
        } else {
            (
                RunModel { phase: PhaseModel::Failed(ErrorModel::SpawnFailed), ..m },
                DirectiveModel::Cleanup,
            )
        },
        (PhaseModel::Streaming, EventModel::ChunkRead(chunk)) => (
            RunModel {
                phase: PhaseModel::Streaming,
                accumulated: m.accumulated + chunk,
                relayed: m.relayed.push(chunk),
            },
            DirectiveModel::Relay(chunk),
        ),
        (PhaseModel::Streaming, EventModel::OutputClosed) => (
            RunModel { phase: PhaseModel::Draining, ..m },
            DirectiveModel::AwaitExit,
        ),
        (PhaseModel::Draining, EventModel::EngineExited(exit_ok, stderr)) => if !exit_ok {
            (
                RunModel {
                    phase: PhaseModel::Failed(ErrorModel::EngineFailed(stderr)),
                    ..m
                },
                DirectiveModel::Cleanup,
            )
        } else {
            match utf8_decode(m.accumulated) {
                Some(text) => (
                    RunModel { phase: PhaseModel::Completed(text), ..m },
                    DirectiveModel::Cleanup,
                ),
                None => (
                    RunModel { phase: PhaseModel::Failed(ErrorModel::EncodingFailed), ..m },
                    DirectiveModel::Cleanup,
                ),
            }
        },
        _ => (m, DirectiveModel::NoOp),
    }
}

/// One run of the analyzer. Holds no process and no file handle — only
/// the phase and the output accumulated from the engine so far.
pub struct AnalysisRun {
    phase: Phase,
    accumulated: Vec<u8>,
    relayed: Ghost<Seq<Seq<u8>>>,
}

impl View for AnalysisRun {
    type V = RunModel;

    closed spec fn view(&self) -> RunModel {
        RunModel {
            phase: self.phase@,
            accumulated: self.accumulated@,
            relayed: self.relayed@,
        }
    }
}

impl AnalysisRun {
    /// A fresh run, ready for the repository check's outcome.
    pub fn new() -> (r: AnalysisRun)
        ensures
            r@ == init_model(),
    {
        let r = AnalysisRun {
            phase: Phase::ValidatingRepo,
            accumulated: Vec::new(),
            relayed: Ghost(Seq::empty()),
        };
        proof {
            assert(r@ =~= init_model());
        }
        r
    }

    /// The current phase, for the driver to inspect.
    pub fn phase(&self) -> (r: &Phase)
        ensures
            r@ == self@.phase,
    {
        &self.phase
    }

    /// Feeds one observed event into the run and answers with the next
    /// directive, exactly as `step_model` says.
    pub fn step(&mut self, ev: Event) -> (d: Directive)
        ensures
            ({
                let (m, dm) = step_model(old(self)@, ev@);
                final(self)@ =~= m && d@ == dm
            }),
    {
        match ev {
            Event::RepoChecked(out) => match self.phase {
                Phase::ValidatingRepo => match validate_repository(&out) {
                    Ok(()) => {
                        self.phase = Phase::ValidatingCommit;
                        Directive::CheckCommit
                    },
                    Err(e) => {
                        self.phase = Phase::Failed(e);
                        Directive::Halt
                    },
                },
                _ => Directive::NoOp,
            },
            Event::CommitChecked(out) => match self.phase {
                Phase::ValidatingCommit => match validate_commit(&out) {
                    Ok(()) => {
                        self.phase = Phase::FetchingDiff;
                        Directive::FetchDiff
                    },
                    Err(e) => {
                        self.phase = Phase::Failed(e);
                        Directive::Halt
                    },
                },
                _ => Directive::NoOp,
            },
            Event::DiffFetched(out) => match self.phase {
                Phase::FetchingDiff => match get_commit_diff(&out) {
                    Ok(text) => {
                        self.phase = Phase::Staging;
                        Directive::StageInput(text)
                    },
                    Err(e) => {
                        self.phase = Phase::Failed(e);
                        Directive::Halt
                    },
                },
                _ => Directive::NoOp,
            },
            Event::Staged(ok) => match self.phase {
                Phase::Staging => if ok {
                    self.phase = Phase::Spawning;
                    Directive::SpawnEngine
                } else {
                    self.phase = Phase::Failed(AnalysisError::StagingFailed);
                    Directive::Cleanup
                },
                _ => Directive::NoOp,
            },
            Event::Spawned(ok) => match self.phase {
                Phase::Spawning => if ok {
                    self.phase = Phase::Streaming;
                    Directive::ReadOutput
                } else {
                    self.phase = Phase::Failed(AnalysisError::SpawnFailed);
                    Directive::Cleanup
                },
                _ => Directive::NoOp,
            },
            Event::ChunkRead(chunk) => match self.phase {
                Phase::Streaming => {
                    let n = chunk.len();
                    let mut i: usize = 0;
                    while i < n
                        invariant
                            i <= n,
                            n == chunk.len(),
                            self.phase is Streaming,
                            self.relayed@ == old(self)@.relayed,
                            self.accumulated@ == old(self)@.accumulated + chunk@.subrange(
                                0,
                                i as int,
                            ),
                        decreases n - i,
                    {
                        self.accumulated.push(chunk[i]);
                        i = i + 1;
                    }
                    proof {
                        assert(chunk@.subrange(0, n as int) =~= chunk@);
                    }
                    self.relayed = Ghost(self.relayed@.push(chunk@));
                    Directive::Relay(chunk)
                },
                _ => Directive::NoOp,
            },
            Event::OutputClosed => match self.phase {
                Phase::Streaming => {
                    self.phase = Phase::Draining;
                    Directive::AwaitExit
                },
                _ => Directive::NoOp,
            },
            Event::EngineExited(exit_ok, stderr) => match self.phase {
                Phase::Draining => if !exit_ok {
                    self.phase = Phase::Failed(AnalysisError::EngineFailed(stderr));
                    Directive::Cleanup
                } else {
                    match decode_utf8(&self.accumulated) {
                        Some(text) => {
                            self.phase = Phase::Completed(text);
                            Directive::Cleanup
                        },
                        None => {
                            self.phase = Phase::Failed(AnalysisError::EncodingFailed);
                            Directive::Cleanup
                        },
                    }
                },
                _ => Directive::NoOp,
            },
        }
    }

    /// Takes the run apart once it is over: the full analysis text on
    /// success, the error otherwise, `None` while the run is still going.
    pub fn outcome(self) -> (r: Option<Result<String, AnalysisError>>)
        ensures
            (match r {
                Some(Ok(text)) => self@.phase == PhaseModel::Completed(text@),
                Some(Err(e)) => self@.phase == PhaseModel::Failed(e@),
                None => !(self@.phase is Completed) && !(self@.phase is Failed),
            }),
    {
        match self.phase {
            Phase::Completed(text) => Some(Ok(text)),
            Phase::Failed(e) => Some(Err(e)),
            _ => None,
        }
    }
}

} // verus!
