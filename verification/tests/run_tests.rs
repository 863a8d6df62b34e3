use file_batch::report::{BatchReport, ItemOutcome};
use file_batch::error::ProcessError;
use file_batch::run::{exit_code, summarize, RunState, RunSummary, Step};

fn course(staging: bool) -> (Vec<Step>, Vec<RunState>) {
    let mut steps = Vec::new();
    let mut states = vec![RunState::Unconfigured];
    let mut state = RunState::Unconfigured;
    while let Some(step) = state.next_step(staging) {
        steps.push(step);
        state = state.advance(staging).unwrap();
        states.push(state);
        assert!(states.len() <= 6);
    }
    assert_eq!(state.advance(staging), None);
    (steps, states)
}

#[test]
fn run_with_staging_passes_every_state() {
    let (steps, states) = course(true);
    assert_eq!(
        steps,
        vec![Step::Discover, Step::Validate, Step::Stage, Step::Process, Step::Report]
    );
    assert_eq!(
        states,
        vec![
            RunState::Unconfigured,
            RunState::Discovered,
            RunState::Validated,
            RunState::Staged,
            RunState::Processed,
            RunState::Reported,
        ]
    );
}

#[test]
fn run_without_staging_passes_over_staged() {
    let (steps, states) = course(false);
    assert_eq!(steps, vec![Step::Discover, Step::Validate, Step::Process, Step::Report]);
    assert_eq!(
        states,
        vec![
            RunState::Unconfigured,
            RunState::Discovered,
            RunState::Validated,
            RunState::Processed,
            RunState::Reported,
        ]
    );
}

#[test]
fn reported_run_has_nothing_left() {
    assert_eq!(RunState::Reported.next_step(true), None);
    assert_eq!(RunState::Reported.next_step(false), None);
    assert_eq!(RunState::Reported.advance(true), None);
    assert_eq!(RunState::Reported.advance(false), None);
}

#[test]
fn staged_run_goes_on_to_the_batch() {
    assert_eq!(RunState::Staged.next_step(false), Some(Step::Process));
    assert_eq!(RunState::Staged.advance(true), Some(RunState::Processed));
}

#[test]
fn summary_of_a_clean_batch() {
    let report = BatchReport::new().with(ItemOutcome::Processed);
    assert_eq!(summarize(&Ok(report)), RunSummary::FullySuccessful);
    assert_eq!(summarize(&Ok(BatchReport::new())), RunSummary::FullySuccessful);
}

#[test]
fn summary_of_a_batch_with_issues() {
    let skipped = BatchReport::new().with(ItemOutcome::Processed).with(ItemOutcome::Skipped);
    assert_eq!(summarize(&Ok(skipped)), RunSummary::CompletedWithIssues);
    let failed = BatchReport::new().with(ItemOutcome::Failed);
    assert_eq!(summarize(&Ok(failed)), RunSummary::CompletedWithIssues);
    let missing = BatchReport::new().with(ItemOutcome::MissingInput);
    assert_eq!(summarize(&Ok(missing)), RunSummary::CompletedWithIssues);
}

#[test]
fn summary_of_an_aborted_run() {
    assert_eq!(
        summarize(&Err(ProcessError::NotFound(String::from("in")))),
        RunSummary::Aborted
    );
    assert_eq!(
        summarize(&Err(ProcessError::IoError(String::from("denied")))),
        RunSummary::Aborted
    );
}

#[test]
fn exit_codes() {
    assert_eq!(exit_code(RunSummary::FullySuccessful), 0);
    assert_eq!(exit_code(RunSummary::CompletedWithIssues), 1);
    assert_eq!(exit_code(RunSummary::Aborted), 2);
}
