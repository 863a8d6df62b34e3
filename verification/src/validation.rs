//! Validation: which inputs are where discovery saw them.

use vstd::prelude::*;
use crate::error::{texts, ProcessError, ProcessErrorView};
use crate::item::ItemView;
use crate::process::Process;
use crate::seqs::{lemma_filter_empty, lemma_filter_keeps, lemma_filter_member, lemma_filter_push};

verus! {

/// Whether the input of item `i` was found as a regular file. `found` holds
/// one observation for each item, in discovery order; an item without an
/// observation counts as not found.
pub open spec fn found_at(found: Seq<bool>, i: int) -> bool {
    0 <= i < found.len() && found[i]
}

/// The inputs of the first `n` items were all found.
pub open spec fn all_found(found: Seq<bool>, n: nat) -> bool {
    forall|i: int| 0 <= i < n ==> found_at(found, i)
}

/// The test that selects the items whose input was not found.
pub open spec fn is_missing(found: Seq<bool>) -> spec_fn(int) -> bool {
    |i: int| !found_at(found, i)
}

/// The indices of the first `n` items whose input was not found, ascending.
pub open spec fn missing(found: Seq<bool>, n: nat) -> Seq<int> {
    Seq::new(n, |i: int| i).filter(is_missing(found))
}

/// The input paths of the items whose input was not found, in discovery
/// order.
pub open spec fn missing_paths(items: Seq<ItemView>, found: Seq<bool>) -> Seq<Seq<char>> {
    missing(found, items.len()).map_values(|i: int| items[i].input_path)
}

/// The indices of a sequence as integers.
pub open spec fn indices(v: Seq<usize>) -> Seq<int> {
    v.map_values(|i: usize| i as int)
}

/// One more item adds its index when its input was not found.
pub proof fn lemma_missing_step(found: Seq<bool>, n: nat)
    ensures
        missing(found, 0) == Seq::<int>::empty(),
        found_at(found, n as int) ==> missing(found, n + 1) == missing(found, n),
        !found_at(found, n as int) ==> missing(found, n + 1) == missing(found, n).push(n as int),
{
    lemma_filter_empty(is_missing(found));
    assert(Seq::new(0, |i: int| i) =~= Seq::<int>::empty());
    assert(Seq::new(n + 1, |i: int| i) =~= Seq::new(n, |i: int| i).push(n as int));
    lemma_filter_push(Seq::new(n, |i: int| i), n as int, is_missing(found));
}

/// The list of missing inputs holds exactly the items whose input was not
/// found, and is empty exactly when all were found.
pub proof fn lemma_missing_exact(found: Seq<bool>, n: nat)
    ensures
        forall|k: int| missing(found, n).contains(k) <==> (0 <= k < n && !found_at(found, k)),
        missing(found, n).len() == 0 <==> all_found(found, n),
        missing(found, n).len() <= n,
{
    let all = Seq::new(n, |i: int| i);
    let list = missing(found, n);
    all.lemma_filter_len(is_missing(found));
    assert forall|k: int| list.contains(k) implies 0 <= k < n && !found_at(found, k) by {
        let i = choose|i: int| 0 <= i < list.len() && list[i] == k;
        lemma_filter_member(all, is_missing(found), i);
    }
    assert forall|k: int| 0 <= k < n && !found_at(found, k) implies list.contains(k) by {
        assert(all[k] == k);
        lemma_filter_keeps(all, is_missing(found), k);
    }
    if list.len() > 0 {
        assert(list.contains(list[0]));
    }
}

/// An input that is removed makes validation fail and is listed as missing,
/// whatever was found of the other inputs.
pub proof fn lemma_removed_input_is_reported(found: Seq<bool>, n: nat, k: int)
    requires
        0 <= k < n,
        k < found.len(),
    ensures
        !all_found(found.update(k, false), n),
        missing(found.update(k, false), n).contains(k),
{
    let after = found.update(k, false);
    assert(!found_at(after, k));
    lemma_missing_exact(after, n);
}

impl Process {
    /// The items whose input was not found: their indices, ascending.
    pub fn missing_inputs(&self, found: &Vec<bool>) -> (list: Vec<usize>)
        ensures
            indices(list@) == missing(found@, self@.items.len()),
            forall|j: int| 0 <= j < list@.len() ==> list@[j] < self@.items.len(),
    {
        let n: usize = self.found.items.len();
        let mut list: Vec<usize> = Vec::new();
        let mut i: usize = 0;
        proof {
            self.lemma_view();
            lemma_missing_step(found@, 0);
            assert(indices(list@) =~= missing(found@, 0));
        }
        while i < n
            invariant
                0 <= i <= n,
                n == self@.items.len(),
                indices(list@) == missing(found@, i as nat),
                forall|j: int| 0 <= j < list@.len() ==> list@[j] < i,
            decreases n - i,
        {
            proof {
                lemma_missing_step(found@, i as nat);
            }
            if !(i < found.len() && found[i]) {
                let ghost before = list@;
                list.push(i);
                assert(indices(list@) =~= indices(before).push(i as int));
            }
            i = i + 1;
        }
        list
    }

    /// Tells whether every item's input was found as a regular file.
    ///
    /// `found` holds one observation for each item, in discovery order.
    /// Returns `Ok(true)` exactly when every input was found; a run without
    /// items is valid. Where inputs are missing, a strict run fails with the
    /// input paths of all of them, and any other run returns `Ok(false)`.
    pub fn validate_inputs(&self, found: &Vec<bool>) -> (r: Result<bool, ProcessError>)
        ensures
            r == Ok::<bool, ProcessError>(true) <==> all_found(found@, self@.items.len()),
            !all_found(found@, self@.items.len()) && !self@.strict ==> r == Ok::<
                bool,
                ProcessError,
            >(false),
            !all_found(found@, self@.items.len()) && self@.strict ==> (r matches Err(e) && e@
                == ProcessErrorView::ValidationFailed(missing_paths(self@.items, found@))),
    {
        let list = self.missing_inputs(found);
        proof {
            self.lemma_view();
            lemma_missing_exact(found@, self@.items.len());
            assert(indices(list@).len() == list@.len());
        }
        if list.len() == 0 {
            return Ok(true);
        }
        if !self.strict {
            return Ok(false);
        }
        let mut paths: Vec<String> = Vec::new();
        let mut j: usize = 0;
        while j < list.len()
            invariant
                0 <= j <= list.len(),
                indices(list@) == missing(found@, self@.items.len()),
                forall|k: int| 0 <= k < list@.len() ==> list@[k] < self@.items.len(),
                self@.items.len() == self.found.items@.len(),
                texts(paths@) == missing_paths(self@.items, found@).take(j as int),
            decreases list.len() - j,
        {
            proof {
                self.lemma_view();
            }
            let path = self.found.items[list[j]].input_path().clone();
            let ghost before = paths@;
            paths.push(path);
            proof {
                assert(indices(list@)[j as int] == list@[j as int]);
                assert(texts(paths@) =~= texts(before).push(path@));
                assert(missing_paths(self@.items, found@).take(j + 1) =~= missing_paths(
                    self@.items,
                    found@,
                ).take(j as int).push(path@));
            }
            j = j + 1;
        }
        assert(missing_paths(self@.items, found@).take(j as int) =~= missing_paths(
            self@.items,
            found@,
        ));
        Err(ProcessError::ValidationFailed(paths))
    }
}

} // verus!
