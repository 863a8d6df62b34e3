//! The course of a run, from configuration to the final summary.

use vstd::prelude::*;
use crate::report::{failed_in, skipped_in, BatchReport};
use crate::error::ProcessError;

verus! {

/// Where a run stands. A run goes through the states in the order in which
/// they are written here; `Staged` is passed over by a run without a
/// scratch directory.
#[derive(Clone, Copy, Debug, PartialEq, Eq, Structural)]
pub enum RunState {
    Unconfigured,
    Discovered,
    Validated,
    Staged,
    Processed,
    Reported,
}

/// The work that takes a run from one state to the next.
#[derive(Clone, Copy, Debug, PartialEq, Eq, Structural)]
pub enum Step {
    Discover,
    Validate,
    Stage,
    Process,
    Report,
}

impl RunState {
    /// The place of the state in the course of a run.
    pub open spec fn rank(self) -> nat {
        match self {
            RunState::Unconfigured => 0,
            RunState::Discovered => 1,
            RunState::Validated => 2,
            RunState::Staged => 3,
            RunState::Processed => 4,
            RunState::Reported => 5,
        }
    }

    /// The work that is due in this state, if any is left. `staging` says
    /// whether the run has a scratch directory to make.
    pub open spec fn due(self, staging: bool) -> Option<Step> {
        match self {
            RunState::Unconfigured => Some(Step::Discover),
            RunState::Discovered => Some(Step::Validate),
            RunState::Validated => if staging {
                Some(Step::Stage)
            } else {
                Some(Step::Process)
            },
            RunState::Staged => Some(Step::Process),
            RunState::Processed => Some(Step::Report),
            RunState::Reported => None,
        }
    }

    /// The state that a step leads to.
    pub open spec fn reached_by(step: Step) -> RunState {
        match step {
            Step::Discover => RunState::Discovered,
            Step::Validate => RunState::Validated,
            Step::Stage => RunState::Staged,
            Step::Process => RunState::Processed,
            Step::Report => RunState::Reported,
        }
    }

    /// The state after the work that is due has been done, if any was left.
    pub open spec fn successor(self, staging: bool) -> Option<RunState> {
        match self.due(staging) {
            Some(step) => Some(Self::reached_by(step)),
            None => None,
        }
    }

    /// The work that is due in this state, if any is left.
    pub fn next_step(self, staging: bool) -> (step: Option<Step>)
        ensures
            step == self.due(staging),
    {
        match self {
            RunState::Unconfigured => Some(Step::Discover),
            RunState::Discovered => Some(Step::Validate),
            RunState::Validated => if staging {
                Some(Step::Stage)
            } else {
                Some(Step::Process)
            },
            RunState::Staged => Some(Step::Process),
            RunState::Processed => Some(Step::Report),
            RunState::Reported => None,
        }
    }

    /// The state after the work that is due has been done; `None` once the
    /// run has reported.
    pub fn advance(self, staging: bool) -> (next: Option<RunState>)
        ensures
            next == self.successor(staging),
    {
        match self.next_step(staging) {
            Some(Step::Discover) => Some(RunState::Discovered),
            Some(Step::Validate) => Some(RunState::Validated),
            Some(Step::Stage) => Some(RunState::Staged),
            Some(Step::Process) => Some(RunState::Processed),
            Some(Step::Report) => Some(RunState::Reported),
            None => None,
        }
    }

    /// A run never goes back: each state that follows another stands later
    /// in the course of a run.
    pub proof fn lemma_forward_only(self, staging: bool)
        ensures
            self.successor(staging) matches Some(next) ==> next.rank() > self.rank(),
            self.successor(staging) is None <==> self == RunState::Reported,
    {
    }

    /// The state after `n` steps, as far as there are steps left.
    pub open spec fn after(self, staging: bool, n: nat) -> RunState
        decreases n,
    {
        if n == 0 {
            self
        } else {
            match self.successor(staging) {
                Some(next) => next.after(staging, (n - 1) as nat),
                None => self,
            }
        }
    }

    /// Every run ends as `Reported`: after five steps with a scratch
    /// directory, which it stages after validation, and after four steps
    /// without one, in which it is never `Staged`.
    pub proof fn lemma_run_completes(staging: bool)
        ensures
            RunState::Unconfigured.after(staging, 1) == RunState::Discovered,
            RunState::Unconfigured.after(staging, 2) == RunState::Validated,
            staging ==> RunState::Unconfigured.after(staging, 3) == RunState::Staged,
            staging ==> RunState::Unconfigured.after(staging, 4) == RunState::Processed,
            staging ==> RunState::Unconfigured.after(staging, 5) == RunState::Reported,
            !staging ==> RunState::Unconfigured.after(staging, 3) == RunState::Processed,
            !staging ==> RunState::Unconfigured.after(staging, 4) == RunState::Reported,
            !staging ==> forall|n: nat|
                #[trigger] RunState::Unconfigured.after(staging, n) != RunState::Staged,
    {
        reveal_with_fuel(RunState::after, 6);
        if !staging {
            assert forall|n: nat| #[trigger]
                RunState::Unconfigured.after(staging, n) != RunState::Staged by {
                Self::lemma_unstaged(RunState::Unconfigured, n);
            }
        }
    }

    /// A run without a scratch directory that is not `Staged` never
    /// becomes so.
    proof fn lemma_unstaged(state: RunState, n: nat)
        requires
            state != RunState::Staged,
        ensures
            state.after(false, n) != RunState::Staged,
        decreases n,
    {
        if n > 0 {
            match state.successor(false) {
                Some(next) => {
                    Self::lemma_unstaged(next, (n - 1) as nat);
                },
                None => {},
            }
        }
    }
}

/// How a run ended, for its final summary.
#[derive(Clone, Copy, Debug, PartialEq, Eq, Structural)]
pub enum RunSummary {
    /// Every item was processed.
    FullySuccessful,
    /// The batch ran to its end, and items were skipped or failed.
    CompletedWithIssues,
    /// A failure that concerns a directory ended the run.
    Aborted,
}

/// The summary that the end of a run calls for.
pub open spec fn summary_of(result: Result<BatchReport, ProcessError>) -> RunSummary {
    match result {
        Ok(report) => if failed_in(report@) == 0 && skipped_in(report@) == 0 {
            RunSummary::FullySuccessful
        } else {
            RunSummary::CompletedWithIssues
        },
        Err(_) => RunSummary::Aborted,
    }
}

/// The summary of a run that ended with the report or the failure given.
pub fn summarize(result: &Result<BatchReport, ProcessError>) -> (summary: RunSummary)
    ensures
        summary == summary_of(*result),
{
    match result {
        Ok(report) => if report.all_good() {
            RunSummary::FullySuccessful
        } else {
            RunSummary::CompletedWithIssues
        },
        Err(_) => RunSummary::Aborted,
    }
}

/// The exit status that goes with a summary: zero for a run that was fully
/// successful, and a status of its own for each of the other two.
pub fn exit_code(summary: RunSummary) -> (code: u8)
    ensures
        code == 0 <==> summary == RunSummary::FullySuccessful,
        summary == RunSummary::CompletedWithIssues ==> code == 1,
        summary == RunSummary::Aborted ==> code == 2,
{
    match summary {
        RunSummary::FullySuccessful => 0,
        RunSummary::CompletedWithIssues => 1,
        RunSummary::Aborted => 2,
    }
}

} // verus!
