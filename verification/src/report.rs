//! How items end, and the report of a batch.

use vstd::prelude::*;
use crate::seqs::{lemma_filter_empty, lemma_filter_keeps, lemma_filter_push};

verus! {

/// How one item ended.
#[derive(Clone, Copy, Debug, PartialEq, Eq, Structural)]
pub enum ItemOutcome {
    /// The transformation was invoked and reported success.
    Processed,
    /// The item was not touched because its result already existed.
    Skipped,
    /// The item was not touched because its input was missing.
    MissingInput,
    /// The transformation was invoked and did not succeed.
    Failed,
}

/// The test for the outcomes that count as processed.
pub open spec fn is_processed() -> spec_fn(ItemOutcome) -> bool {
    |o: ItemOutcome| o == ItemOutcome::Processed
}

/// The test for the outcomes that count as skipped.
pub open spec fn is_skipped() -> spec_fn(ItemOutcome) -> bool {
    |o: ItemOutcome| o == ItemOutcome::Skipped
}

/// The test for the outcomes that count as failed: a missing input and a
/// transformation that did not succeed.
pub open spec fn is_failed() -> spec_fn(ItemOutcome) -> bool {
    |o: ItemOutcome| o == ItemOutcome::MissingInput || o == ItemOutcome::Failed
}

/// How many items were processed.
pub open spec fn processed_in(outcomes: Seq<ItemOutcome>) -> nat {
    outcomes.filter(is_processed()).len()
}

/// How many items were skipped.
pub open spec fn skipped_in(outcomes: Seq<ItemOutcome>) -> nat {
    outcomes.filter(is_skipped()).len()
}

/// How many items failed.
pub open spec fn failed_in(outcomes: Seq<ItemOutcome>) -> nat {
    outcomes.filter(is_failed()).len()
}

/// What one outcome adds to the count that `test` selects.
pub open spec fn counts(test: spec_fn(ItemOutcome) -> bool, outcome: ItemOutcome) -> nat {
    if test(outcome) {
        1
    } else {
        0
    }
}

/// One more outcome adds one to the count it belongs to.
pub proof fn lemma_counts_push(outcomes: Seq<ItemOutcome>, outcome: ItemOutcome)
    ensures
        processed_in(outcomes.push(outcome)) == processed_in(outcomes) + counts(
            is_processed(),
            outcome,
        ),
        skipped_in(outcomes.push(outcome)) == skipped_in(outcomes) + counts(is_skipped(), outcome),
        failed_in(outcomes.push(outcome)) == failed_in(outcomes) + counts(is_failed(), outcome),
{
    lemma_filter_push(outcomes, outcome, is_processed());
    lemma_filter_push(outcomes, outcome, is_skipped());
    lemma_filter_push(outcomes, outcome, is_failed());
}

/// Every item is counted once: as processed, as skipped or as failed.
pub proof fn lemma_counts_total(outcomes: Seq<ItemOutcome>)
    ensures
        processed_in(outcomes) + skipped_in(outcomes) + failed_in(outcomes) == outcomes.len(),
    decreases outcomes.len(),
{
    if outcomes.len() == 0 {
        lemma_filter_empty(is_processed());
        lemma_filter_empty(is_skipped());
        lemma_filter_empty(is_failed());
        assert(outcomes =~= Seq::empty());
    } else {
        lemma_counts_total(outcomes.drop_last());
        lemma_counts_push(outcomes.drop_last(), outcomes.last());
        assert(outcomes.drop_last().push(outcomes.last()) =~= outcomes);
    }
}

/// No item failed exactly when no outcome is a failure, and likewise for
/// the items that were skipped and for those that were processed.
pub proof fn lemma_counts_zero(outcomes: Seq<ItemOutcome>)
    ensures
        failed_in(outcomes) == 0 <==> forall|i: int|
            0 <= i < outcomes.len() ==> !is_failed()(#[trigger] outcomes[i]),
        skipped_in(outcomes) == 0 <==> forall|i: int|
            0 <= i < outcomes.len() ==> #[trigger] outcomes[i] != ItemOutcome::Skipped,
        processed_in(outcomes) == 0 <==> forall|i: int|
            0 <= i < outcomes.len() ==> #[trigger] outcomes[i] != ItemOutcome::Processed,
{
    lemma_zero_count(outcomes, is_failed());
    lemma_zero_count(outcomes, is_skipped());
    lemma_zero_count(outcomes, is_processed());
}

/// Nothing is left by a filter exactly when no element meets its test.
proof fn lemma_zero_count(outcomes: Seq<ItemOutcome>, pred: spec_fn(ItemOutcome) -> bool)
    ensures
        outcomes.filter(pred).len() == 0 <==> forall|i: int|
            0 <= i < outcomes.len() ==> !pred(#[trigger] outcomes[i]),
{
    if outcomes.filter(pred).len() == 0 {
        assert forall|i: int| 0 <= i < outcomes.len() implies !pred(#[trigger] outcomes[i]) by {
            if pred(outcomes[i]) {
                lemma_filter_keeps(outcomes, pred, i);
            }
        }
    } else {
        outcomes.lemma_filter_pred(pred, 0);
        outcomes.lemma_filter_contains_rev(pred, outcomes.filter(pred)[0]);
    }
}

/// The report of a batch: how each item ended, in discovery order, and how
/// many were processed, skipped and failed.
#[derive(Debug, PartialEq, Eq)]
pub struct BatchReport {
    outcomes: Vec<ItemOutcome>,
    processed: usize,
    skipped: usize,
    failed: usize,
}

impl View for BatchReport {
    type V = Seq<ItemOutcome>;

    closed spec fn view(&self) -> Seq<ItemOutcome> {
        self.outcomes@
    }
}

impl BatchReport {
    #[verifier::type_invariant]
    spec fn inv(self) -> bool {
        &&& self.processed == processed_in(self.outcomes@)
        &&& self.skipped == skipped_in(self.outcomes@)
        &&& self.failed == failed_in(self.outcomes@)
    }

    /// The report of a batch in which nothing has happened yet.
    pub fn new() -> (report: BatchReport)
        ensures
            report@ == Seq::<ItemOutcome>::empty(),
    {
        proof {
            lemma_filter_empty(is_processed());
            lemma_filter_empty(is_skipped());
            lemma_filter_empty(is_failed());
        }
        BatchReport { outcomes: Vec::new(), processed: 0, skipped: 0, failed: 0 }
    }

    /// The report with the outcome of one more item at its end.
    pub fn with(self, outcome: ItemOutcome) -> (report: BatchReport)
        ensures
            report@ == self@.push(outcome),
    {
        proof {
            use_type_invariant(&self);
            lemma_counts_push(self.outcomes@, outcome);
            lemma_counts_total(self.outcomes@);
        }
        let mut outcomes = self.outcomes;
        let mut processed = self.processed;
        let mut skipped = self.skipped;
        let mut failed = self.failed;
        outcomes.push(outcome);
        assert(processed + skipped + failed < outcomes.len());
        match outcome {
            ItemOutcome::Processed => {
                processed = processed + 1;
            },
            ItemOutcome::Skipped => {
                skipped = skipped + 1;
            },
            _ => {
                failed = failed + 1;
            },
        }
        BatchReport { outcomes, processed, skipped, failed }
    }

    /// How each item ended, in discovery order.
    pub fn outcomes(&self) -> (r: &Vec<ItemOutcome>)
        ensures
            r@ == self@,
    {
        &self.outcomes
    }

    /// How many items the report covers.
    pub fn total(&self) -> (n: usize)
        ensures
            n == self@.len(),
    {
        self.outcomes.len()
    }

    /// How many items were handed to the transformation and succeeded.
    pub fn processed(&self) -> (n: usize)
        ensures
            n == processed_in(self@),
    {
        proof {
            use_type_invariant(self);
        }
        self.processed
    }

    /// How many items were left alone because their result already existed.
    pub fn skipped(&self) -> (n: usize)
        ensures
            n == skipped_in(self@),
    {
        proof {
            use_type_invariant(self);
        }
        self.skipped
    }

    /// How many items failed: for want of an input, or in the transformation.
    pub fn failed(&self) -> (n: usize)
        ensures
            n == failed_in(self@),
    {
        proof {
            use_type_invariant(self);
        }
        self.failed
    }

    /// Whether the batch succeeded as a whole: no item failed and none was
    /// skipped, so that every item was processed. A batch without items
    /// succeeds.
    pub fn all_good(&self) -> (b: bool)
        ensures
            b <==> failed_in(self@) == 0 && skipped_in(self@) == 0,
            b <==> forall|i: int| 0 <= i < self@.len() ==> self@[i] == ItemOutcome::Processed,
    {
        proof {
            use_type_invariant(self);
            lemma_counts_zero(self.outcomes@);
        }
        self.failed == 0 && self.skipped == 0
    }
}

} // verus!
