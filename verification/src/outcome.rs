//! What deletion calls came to, and how that adds up.

use vstd::prelude::*;
use crate::plan::{DeletionTask, TaskView};
use crate::target::texts_of;

verus! {

/// The terminal summary of one eviction pass, in targets.
#[derive(Clone, Copy, Debug, PartialEq, Eq, Structural)]
pub struct EvictionResult {
    pub successful_count: usize,
    pub failed_count: usize,
}

/// What one deletion call came to.
pub enum OutcomeView {
    /// The call failed as a whole.
    Failed,
    /// The call went through and reported these keys as not deleted.
    Completed { failed_keys: Seq<Seq<char>> },
}

/// The result of one deletion call.
#[derive(Debug)]
pub enum BatchOutcome {
    /// The call failed as a whole: none of its targets counts as deleted.
    Failed,
    /// The call went through. `failed_keys` holds the key of each per-key
    /// error that it reported; a call for a single target reports none.
    Completed { failed_keys: Vec<String> },
}

impl View for BatchOutcome {
    type V = OutcomeView;

    open spec fn view(&self) -> OutcomeView {
        match self {
            BatchOutcome::Failed => OutcomeView::Failed,
            BatchOutcome::Completed { failed_keys } => OutcomeView::Completed {
                failed_keys: texts_of(failed_keys@),
            },
        }
    }
}

impl BatchOutcome {
    /// The outcome of a call for a single target, which either deleted it
    /// or failed.
    pub fn of_single(deleted: bool) -> (outcome: BatchOutcome)
        ensures
            outcome@ == if deleted {
                OutcomeView::Completed { failed_keys: Seq::empty() }
            } else {
                OutcomeView::Failed
            },
    {
        if deleted {
            let failed_keys: Vec<String> = Vec::new();
            proof {
                assert(texts_of(failed_keys@) =~= Seq::empty());
            }
            BatchOutcome::Completed { failed_keys }
        } else {
            BatchOutcome::Failed
        }
    }
}

/// How many of `keys` occur among `failed_keys`.
pub open spec fn rejected(keys: Seq<Seq<char>>, failed_keys: Seq<Seq<char>>) -> nat
    decreases keys.len(),
{
    if keys.len() == 0 {
        0
    } else {
        rejected(keys.drop_last(), failed_keys) + if failed_keys.contains(keys.last()) {
            1nat
        } else {
            0nat
        }
    }
}

/// How many targets of `task` were not deleted, going by `outcome`: all of
/// them where the call failed as a whole, else those whose key the call
/// reported.
pub open spec fn failures(task: TaskView, outcome: OutcomeView) -> nat {
    match outcome {
        OutcomeView::Failed => task.size(),
        OutcomeView::Completed { failed_keys } => rejected(task.keys(), failed_keys),
    }
}

/// No more keys are rejected than there are.
pub proof fn lemma_rejected_bound(keys: Seq<Seq<char>>, failed_keys: Seq<Seq<char>>)
    ensures
        rejected(keys, failed_keys) <= keys.len(),
    decreases keys.len(),
{
    if keys.len() > 0 {
        lemma_rejected_bound(keys.drop_last(), failed_keys);
    }
}

/// A call fails for no more targets than it has.
pub proof fn lemma_failures_bound(task: TaskView, outcome: OutcomeView)
    ensures
        failures(task, outcome) <= task.size(),
{
    if let OutcomeView::Completed { failed_keys } = outcome {
        lemma_rejected_bound(task.keys(), failed_keys);
    }
}

/// Whether `key` occurs among `failed_keys`.
pub fn names_key(failed_keys: &Vec<String>, key: &String) -> (found: bool)
    ensures
        found == texts_of(failed_keys@).contains(key@),
{
    let mut i: usize = 0;
    while i < failed_keys.len()
        invariant
            i <= failed_keys@.len(),
            forall|j: int| 0 <= j < i ==> texts_of(failed_keys@)[j] != key@,
        decreases failed_keys@.len() - i,
    {
        if failed_keys[i] == *key {
            assert(texts_of(failed_keys@)[i as int] == key@);
            return true;
        }
        i += 1;
    }
    false
}

/// Counts the targets of `task` that `outcome` reports as not deleted.
pub fn count_failures(task: &DeletionTask, outcome: &BatchOutcome) -> (n: usize)
    ensures
        n == failures(task@, outcome@),
{
    match outcome {
        BatchOutcome::Failed => task.size(),
        BatchOutcome::Completed { failed_keys } => {
            match task {
                DeletionTask::Single { key, .. } => {
                    proof {
                        let failed = texts_of(failed_keys@);
                        assert(seq![key@].drop_last() =~= Seq::<Seq<char>>::empty());
                        assert(seq![key@].last() == key@);
                        assert(rejected(seq![key@].drop_last(), failed) == 0);
                    }
                    if names_key(failed_keys, key) {
                        1
                    } else {
                        0
                    }
                },
                DeletionTask::Batch { keys } => {
                    let ghost all = texts_of(keys@);
                    let ghost failed = texts_of(failed_keys@);
                    let mut n: usize = 0;
                    let mut i: usize = 0;
                    while i < keys.len()
                        invariant
                            i <= keys@.len(),
                            all == texts_of(keys@),
                            failed == texts_of(failed_keys@),
                            n == rejected(all.take(i as int), failed),
                            n <= i,
                        decreases keys@.len() - i,
                    {
                        proof {
                            assert(all.take(i as int + 1).drop_last() =~= all.take(i as int));
                            assert(all.take(i as int + 1).last() == keys@[i as int]@);
                        }
                        if names_key(failed_keys, &keys[i]) {
                            n += 1;
                        }
                        i += 1;
                    }
                    proof {
                        assert(all.take(i as int) =~= all);
                    }
                    n
                },
            }
        },
    }
}

} // verus!
