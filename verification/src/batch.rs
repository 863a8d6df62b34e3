//! The batch: what is done with each item, and the run over all of them.

use vstd::prelude::*;
use crate::error::{texts, ProcessError, ProcessErrorView};
use crate::item::{Item, ItemView};
use crate::process::Process;
use crate::report::{
    failed_in, is_failed, lemma_counts_total, lemma_counts_zero, processed_in, skipped_in,
    BatchReport, ItemOutcome,
};
use crate::seqs::{lemma_filter_empty, lemma_filter_push};

verus! {

/// What was seen of one item's files just before the batch.
#[derive(Clone, Copy, Debug, PartialEq, Eq, Structural)]
pub struct ItemProbe {
    /// The input is there, as a regular file.
    pub input_found: bool,
    /// Something is already at the output path.
    pub output_exists: bool,
}

/// What the batch does with one item.
#[derive(Clone, Copy, Debug, PartialEq, Eq, Structural)]
pub enum ItemAction {
    /// Hand the item to the transformation.
    Invoke,
    /// Leave the item alone: its result is there and may not be written over.
    Skip,
    /// Count the item as failed without handing it over: its input is missing.
    FailMissingInput,
}

/// The observation that stands for item `i`. `probes` holds one for each
/// item, in discovery order; an item without one counts as having neither
/// input nor output.
pub open spec fn probe_at(probes: Seq<ItemProbe>, i: int) -> ItemProbe {
    if 0 <= i < probes.len() {
        probes[i]
    } else {
        ItemProbe { input_found: false, output_exists: false }
    }
}

/// The rule of the batch for one item. An existing result is kept unless
/// results may be written over; otherwise an item whose input is missing
/// fails on the spot, and every other item is handed to the transformation.
pub open spec fn decide(overwrite: bool, probe: ItemProbe) -> ItemAction {
    if probe.output_exists && !overwrite {
        ItemAction::Skip
    } else if !probe.input_found {
        ItemAction::FailMissingInput
    } else {
        ItemAction::Invoke
    }
}

/// How an item ends that was handed to the transformation: processed when
/// the transformation reports success, failed when it reports failure or
/// fails itself.
pub open spec fn outcome_of<E>(result: Result<bool, E>) -> ItemOutcome {
    match result {
        Ok(true) => ItemOutcome::Processed,
        _ => ItemOutcome::Failed,
    }
}

/// The outcomes that an action leaves open: one each for the two actions
/// that do not invoke the transformation, and success or failure for the
/// one that does.
pub open spec fn allowed(action: ItemAction, outcome: ItemOutcome) -> bool {
    match action {
        ItemAction::Skip => outcome == ItemOutcome::Skipped,
        ItemAction::FailMissingInput => outcome == ItemOutcome::MissingInput,
        ItemAction::Invoke => outcome == ItemOutcome::Processed || outcome == ItemOutcome::Failed,
    }
}

/// `outcome` is how `item` ends under `action` with the transformation
/// `transform`: what the action fixes, or what one call of `transform` on
/// the item gave.
pub open spec fn follows<F: Fn(&Item) -> Result<bool, E>, E>(
    action: ItemAction,
    transform: F,
    item: Item,
    outcome: ItemOutcome,
) -> bool {
    &&& allowed(action, outcome)
    &&& action == ItemAction::Invoke ==> exists|result: Result<bool, E>|
        call_ensures(transform, (&item,), result) && outcome == outcome_of(result)
}

/// Every outcome of a run is one that the rule of the batch leaves open.
pub open spec fn obeys(
    overwrite: bool,
    probes: Seq<ItemProbe>,
    outcomes: Seq<ItemOutcome>,
) -> bool {
    forall|i: int|
        0 <= i < outcomes.len() ==> allowed(
            decide(overwrite, probe_at(probes, i)),
            #[trigger] outcomes[i],
        )
}

/// What is seen of the results after a run: a result that was there is
/// still there, and each item that was processed has its result.
pub open spec fn results_kept(
    before: Seq<ItemProbe>,
    outcomes: Seq<ItemOutcome>,
    after: Seq<ItemProbe>,
) -> bool {
    forall|i: int|
        0 <= i < outcomes.len() && (probe_at(before, i).output_exists || #[trigger] outcomes[i]
            == ItemOutcome::Processed) ==> probe_at(after, i).output_exists
}

/// A second run over the same results, where none may be written over,
/// skips every item that the first run processed or skipped. Where nothing
/// failed in the first run, the second skips every item, and none fails.
pub proof fn lemma_second_run_skips(
    before: Seq<ItemProbe>,
    first: Seq<ItemOutcome>,
    after: Seq<ItemProbe>,
    second: Seq<ItemOutcome>,
)
    requires
        first.len() == second.len(),
        obeys(false, before, first),
        obeys(false, after, second),
        results_kept(before, first, after),
    ensures
        forall|i: int|
            0 <= i < second.len() && (first[i] == ItemOutcome::Processed || first[i]
                == ItemOutcome::Skipped) ==> #[trigger] second[i] == ItemOutcome::Skipped,
        failed_in(first) == 0 ==> skipped_in(second) == second.len(),
        failed_in(first) == 0 ==> failed_in(second) == 0,
        failed_in(first) == 0 ==> processed_in(second) == 0,
{
    assert forall|i: int|
        0 <= i < second.len() && (first[i] == ItemOutcome::Processed || first[i]
            == ItemOutcome::Skipped) implies #[trigger] second[i] == ItemOutcome::Skipped by {
        assert(allowed(decide(false, probe_at(before, i)), first[i]));
        assert(probe_at(after, i).output_exists);
        assert(allowed(decide(false, probe_at(after, i)), second[i]));
    }
    if failed_in(first) == 0 {
        lemma_counts_zero(first);
        assert forall|i: int| 0 <= i < second.len() implies #[trigger] second[i]
            == ItemOutcome::Skipped by {
            assert(!is_failed()(first[i]));
            assert(allowed(decide(false, probe_at(before, i)), first[i]));
        }
        lemma_counts_zero(second);
        lemma_counts_total(second);
    }
}

/// Where results may be written over, what is already at an output path
/// plays no part: no item is skipped, and every item whose input is there
/// is handed to the transformation.
pub proof fn lemma_overwrite_invokes(probes: Seq<ItemProbe>, outcomes: Seq<ItemOutcome>)
    requires
        obeys(true, probes, outcomes),
    ensures
        skipped_in(outcomes) == 0,
        forall|i: int|
            0 <= i < outcomes.len() && probe_at(probes, i).input_found ==> decide(
                true,
                #[trigger] probe_at(probes, i),
            ) == ItemAction::Invoke,
        forall|i: int|
            0 <= i < outcomes.len() && probe_at(probes, i).input_found ==> (
            #[trigger] outcomes[i] == ItemOutcome::Processed || outcomes[i]
                == ItemOutcome::Failed),
{
    assert forall|i: int| 0 <= i < outcomes.len() implies #[trigger] outcomes[i]
        != ItemOutcome::Skipped by {
        assert(allowed(decide(true, probe_at(probes, i)), outcomes[i]));
    }
    assert forall|i: int| 0 <= i < outcomes.len() && probe_at(probes, i).input_found implies (
    #[trigger] outcomes[i] == ItemOutcome::Processed || outcomes[i] == ItemOutcome::Failed) by {
        assert(allowed(decide(true, probe_at(probes, i)), outcomes[i]));
    }
    lemma_counts_zero(outcomes);
}

/// The error that an item's outcome stands for: the missing input path for
/// an item without input, the item's name for one whose transformation did
/// not succeed, and none for the others.
pub open spec fn error_of(item: ItemView, outcome: ItemOutcome) -> Option<ProcessErrorView> {
    match outcome {
        ItemOutcome::MissingInput => Some(
            ProcessErrorView::ValidationFailed(seq![item.input_path]),
        ),
        ItemOutcome::Failed => Some(ProcessErrorView::ItemProcessingError(item.name)),
        _ => None,
    }
}

/// The errors of the first `n` items, each item with its outcome; `None`
/// where the item has not failed.
pub open spec fn errors_upto(items: Seq<ItemView>, outcomes: Seq<ItemOutcome>, n: nat) -> Seq<
    Option<ProcessErrorView>,
> {
    Seq::new(n, |i: int| error_of(items[i], outcomes[i]))
}

/// The errors collected over a batch, in discovery order: one for each item
/// that failed, as far as both the items and the outcomes reach.
pub open spec fn collected(items: Seq<ItemView>, outcomes: Seq<ItemOutcome>) -> Seq<
    ProcessErrorView,
> {
    let n = if items.len() <= outcomes.len() {
        items.len()
    } else {
        outcomes.len()
    };
    errors_upto(items, outcomes, n).filter(|e: Option<ProcessErrorView>| e is Some).map_values(
        |e: Option<ProcessErrorView>| e.unwrap(),
    )
}

/// The errors of a sequence, each as text.
pub open spec fn error_views(errors: Seq<ProcessError>) -> Seq<ProcessErrorView> {
    errors.map_values(|e: ProcessError| e@)
}

/// A transformation that accepts every item as it is.
pub fn _process_item(item: &Item) -> (r: Result<bool, ProcessError>)
    ensures
        r == Ok::<bool, ProcessError>(true),
{
    Ok(true)
}

/// The action for an item with the observation given.
pub fn item_action(overwrite: bool, probe: ItemProbe) -> (action: ItemAction)
    ensures
        action == decide(overwrite, probe),
{
    if probe.output_exists && !overwrite {
        ItemAction::Skip
    } else if !probe.input_found {
        ItemAction::FailMissingInput
    } else {
        ItemAction::Invoke
    }
}

/// How an item ends, given what the transformation returned for it.
pub fn transform_outcome<E>(result: &Result<bool, E>) -> (outcome: ItemOutcome)
    ensures
        outcome == outcome_of(*result),
{
    match result {
        Ok(true) => ItemOutcome::Processed,
        _ => ItemOutcome::Failed,
    }
}

impl Process {
    /// The action for one item of this run with the observation given.
    pub fn action_for(&self, probe: ItemProbe) -> (action: ItemAction)
        ensures
            action == decide(self@.overwrite, probe),
    {
        proof {
            self.lemma_view();
        }
        item_action(self.overwrite, probe)
    }

    /// Runs the batch: takes the items in discovery order and, for each,
    /// skips it, fails it for want of its input, or hands it to `transform`,
    /// as the rule of the batch says for what was seen of its files.
    ///
    /// `probes` holds one observation for each item, in discovery order. An
    /// item that fails does not stop the batch. The report holds one outcome
    /// for each item: the one its action fixes, or the one that follows from
    /// what `transform` returned for it.
    pub fn process_all<F: Fn(&Item) -> Result<bool, E>, E>(
        &self,
        probes: &Vec<ItemProbe>,
        transform: F,
    ) -> (report: BatchReport)
        requires
            forall|i: int|
                0 <= i < self.item_seq().len() ==> call_requires(
                    transform,
                    (&#[trigger] self.item_seq()[i],),
                ),
        ensures
            report@.len() == self.item_seq().len(),
            obeys(self@.overwrite, probes@, report@),
            forall|i: int|
                0 <= i < report@.len() ==> follows(
                    decide(self@.overwrite, probe_at(probes@, i)),
                    transform,
                    self.item_seq()[i],
                    #[trigger] report@[i],
                ),
    {
        let n: usize = self.found.items.len();
        let mut report = BatchReport::new();
        let mut i: usize = 0;
        proof {
            self.lemma_view();
        }
        while i < n
            invariant
                0 <= i <= n,
                n == self.found.items@.len(),
                self.item_seq() == self.found.items@,
                self@.overwrite == self.overwrite,
                report@.len() == i,
                forall|k: int|
                    0 <= k < n ==> call_requires(transform, (&#[trigger] self.found.items@[k],)),
                forall|k: int|
                    0 <= k < i ==> follows(
                        decide(self.overwrite, probe_at(probes@, k)),
                        transform,
                        self.found.items@[k],
                        #[trigger] report@[k],
                    ),
            decreases n - i,
        {
            let probe = if i < probes.len() {
                probes[i]
            } else {
                ItemProbe { input_found: false, output_exists: false }
            };
            let outcome = match item_action(self.overwrite, probe) {
                ItemAction::Skip => ItemOutcome::Skipped,
                ItemAction::FailMissingInput => ItemOutcome::MissingInput,
                ItemAction::Invoke => {
                    let result = transform(&self.found.items[i]);
                    transform_outcome(&result)
                },
            };
            let ghost before = report@;
            report = report.with(outcome);
            proof {
                assert forall|k: int| 0 <= k < i + 1 implies follows(
                    decide(self.overwrite, probe_at(probes@, k)),
                    transform,
                    self.found.items@[k],
                    #[trigger] report@[k],
                ) by {
                    if k < i {
                        assert(report@[k] == before[k]);
                    }
                }
            }
            i = i + 1;
        }
        report
    }

    /// The errors that a batch collected, in discovery order: for each item
    /// without input its input path, and for each item whose transformation
    /// did not succeed its name.
    pub fn item_errors(&self, report: &BatchReport) -> (errors: Vec<ProcessError>)
        ensures
            error_views(errors@) == collected(self@.items, report@),
    {
        let outcomes = report.outcomes();
        let n: usize = if self.found.items.len() <= outcomes.len() {
            self.found.items.len()
        } else {
            outcomes.len()
        };
        let mut errors: Vec<ProcessError> = Vec::new();
        let mut i: usize = 0;
        let ghost some = |e: Option<ProcessErrorView>| e is Some;
        let ghost get = |e: Option<ProcessErrorView>| e.unwrap();
        proof {
            self.lemma_view();
            lemma_filter_empty(some);
            assert(errors_upto(self@.items, report@, 0) =~= Seq::empty());
            assert(error_views(errors@) =~= errors_upto(self@.items, report@, 0).filter(
                some,
            ).map_values(get));
        }
        while i < n
            invariant
                0 <= i <= n,
                n <= self.found.items@.len(),
                n <= outcomes@.len(),
                outcomes@ == report@,
                self@.items.len() == self.found.items@.len(),
                some == |e: Option<ProcessErrorView>| e is Some,
                get == |e: Option<ProcessErrorView>| e.unwrap(),
                error_views(errors@) == errors_upto(self@.items, report@, i as nat).filter(
                    some,
                ).map_values(get),
            decreases n - i,
        {
            let item = &self.found.items[i];
            let ghost before = errors@;
            let ghost sofar = errors_upto(self@.items, report@, i as nat);
            proof {
                self.lemma_view();
                let e = error_of(self@.items[i as int], report@[i as int]);
                assert(errors_upto(self@.items, report@, (i + 1) as nat) =~= sofar.push(e));
                lemma_filter_push(sofar, e, some);
                assert(self@.items[i as int] == item@);
            }
            match outcomes[i] {
                ItemOutcome::MissingInput => {
                    let mut paths: Vec<String> = Vec::new();
                    let path = item.input_path().clone();
                    paths.push(path);
                    let error = ProcessError::ValidationFailed(paths);
                    assert(texts(paths@) =~= seq![item@.input_path]);
                    errors.push(error);
                    assert(error_views(errors@) =~= error_views(before).push(error@));
                    assert(sofar.filter(some).push(Some(error@)).map_values(get) =~= sofar.filter(
                        some,
                    ).map_values(get).push(error@));
                },
                ItemOutcome::Failed => {
                    let error = ProcessError::ItemProcessingError(item.name().clone());
                    errors.push(error);
                    assert(error_views(errors@) =~= error_views(before).push(error@));
                    assert(sofar.filter(some).push(Some(error@)).map_values(get) =~= sofar.filter(
                        some,
                    ).map_values(get).push(error@));
                },
                _ => {},
            }
            i = i + 1;
        }
        errors
    }
}

} // verus!
