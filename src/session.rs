//! One end-to-end run of the protocol as a sequence of stages: each stage
//! gates the next, none is entered twice, and a failure ends the run.

use vstd::prelude::*;
use crate::job::JobError;
use crate::receipt::{ProofError, SealError};
use crate::settle::SettlementError;
use crate::stake::StakeError;

verus! {

/// The stages of a run, in order.
#[derive(Debug, Clone, Copy, PartialEq, Eq, Structural)]
pub enum Stage {
    Staking,
    CreatingJob,
    AcceptingJob,
    Proving,
    Sealing,
    Submitting,
    Reconciling,
}

/// Why a run stopped.
#[derive(Debug, Clone, Copy, PartialEq, Eq, Structural)]
pub enum RunError {
    Stake(StakeError),
    Job(JobError),
    Proof(ProofError),
    Seal(SealError),
    Settlement(SettlementError),
    /// A blocking wait of the stage ran out of time.
    TimedOut(Stage),
}

/// Where a run stands.
#[derive(Debug, Clone, Copy, PartialEq, Eq, Structural)]
pub enum RunState {
    Active(Stage),
    Failed(Stage, RunError),
    Finished,
}

pub open spec fn stage_rank(s: Stage) -> nat {
    match s {
        Stage::Staking => 0,
        Stage::CreatingJob => 1,
        Stage::AcceptingJob => 2,
        Stage::Proving => 3,
        Stage::Sealing => 4,
        Stage::Submitting => 5,
        Stage::Reconciling => 6,
    }
}

/// How far a run has come: finished runs rank above every stage.
pub open spec fn progress(r: RunState) -> nat {
    match r {
        RunState::Active(s) => stage_rank(s),
        RunState::Failed(s, _) => stage_rank(s),
        RunState::Finished => 7,
    }
}

pub open spec fn is_terminal(r: RunState) -> bool {
    !(r is Active)
}

pub open spec fn advance_spec(r: RunState, outcome: Result<(), RunError>) -> RunState {
    match r {
        RunState::Active(s) => match outcome {
            Err(e) => RunState::Failed(s, e),
            Ok(()) => if stage_rank(s) == 6 {
                RunState::Finished
            } else {
                RunState::Active(stage_at((stage_rank(s) + 1) as nat))
            },
        },
        _ => r,
    }
}

pub open spec fn stage_at(n: nat) -> Stage {
    if n == 0 {
        Stage::Staking
    } else if n == 1 {
        Stage::CreatingJob
    } else if n == 2 {
        Stage::AcceptingJob
    } else if n == 3 {
        Stage::Proving
    } else if n == 4 {
        Stage::Sealing
    } else if n == 5 {
        Stage::Submitting
    } else {
        Stage::Reconciling
    }
}

impl RunState {
    /// A run that has not done anything yet.
    pub fn start() -> (r: RunState)
        ensures
            r == RunState::Active(Stage::Staking),
    {
        RunState::Active(Stage::Staking)
    }

    /// The stage a run is in, or stopped in; none once finished.
    pub fn stage(&self) -> (r: Option<Stage>)
        ensures
            match *self {
                RunState::Active(s) => r == Some(s),
                RunState::Failed(s, _) => r == Some(s),
                RunState::Finished => r is None,
            },
    {
        match *self {
            RunState::Active(s) => Some(s),
            RunState::Failed(s, _) => Some(s),
            RunState::Finished => None,
        }
    }
}

/// Records the outcome of the current stage: success moves to the next stage
/// (or finishes after reconciliation), failure stops the run in that stage.
/// A stopped or finished run does not move again.
pub fn advance(r: RunState, outcome: Result<(), RunError>) -> (next: RunState)
    ensures
        next == advance_spec(r, outcome),
{
    match r {
        RunState::Active(s) => match outcome {
            Err(e) => RunState::Failed(s, e),
            Ok(()) => match s {
                Stage::Staking => RunState::Active(Stage::CreatingJob),
                Stage::CreatingJob => RunState::Active(Stage::AcceptingJob),
                Stage::AcceptingJob => RunState::Active(Stage::Proving),
                Stage::Proving => RunState::Active(Stage::Sealing),
                Stage::Sealing => RunState::Active(Stage::Submitting),
                Stage::Submitting => RunState::Active(Stage::Reconciling),
                Stage::Reconciling => RunState::Finished,
            },
        },
        _ => r,
    }
}

/// Stages are never re-entered: every step keeps or raises a run's progress,
/// raises it by exactly one on success, and leaves stopped or finished runs
/// where they are.
pub proof fn lemma_stages_advance_in_order(r: RunState, outcome: Result<(), RunError>)
    ensures
        progress(advance_spec(r, outcome)) >= progress(r),
        is_terminal(r) ==> advance_spec(r, outcome) == r,
        (r is Active && outcome is Ok) ==> progress(advance_spec(r, outcome)) == progress(r) + 1,
        (r is Active && outcome is Err) ==> is_terminal(advance_spec(r, outcome)),
{
}

/// A run finishes only from reconciliation, after every stage before it.
pub proof fn lemma_finish_only_after_reconciling(r: RunState, outcome: Result<(), RunError>)
    requires
        !(r is Finished),
        advance_spec(r, outcome) is Finished,
    ensures
        r == RunState::Active(Stage::Reconciling),
        outcome is Ok,
{
}

} // verus!
