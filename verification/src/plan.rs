//! From an inventory to the deletion calls that empty it.
//!
//! A version-qualified target takes a deletion call of its own. Targets
//! without a version are deleted by multi-object calls of at most
//! [`CHUNK_SIZE`] keys each.

use vstd::prelude::*;
use crate::target::{inventory_view, texts_of, DeletionTarget, TargetView};

verus! {

/// The most keys that one multi-object deletion call accepts.
pub const CHUNK_SIZE: usize = 1000;

/// What a deletion call is about.
pub enum TaskView {
    /// One version or delete marker of one key.
    Single { key: Seq<char>, version_id: Seq<char> },
    /// The keys of one multi-object call, in order.
    Batch { keys: Seq<Seq<char>> },
}

impl TaskView {
    /// The number of targets that the call deletes.
    pub open spec fn size(self) -> nat {
        match self {
            TaskView::Single { .. } => 1,
            TaskView::Batch { keys } => keys.len(),
        }
    }

    /// The keys of the call's targets, in order.
    pub open spec fn keys(self) -> Seq<Seq<char>> {
        match self {
            TaskView::Single { key, .. } => seq![key],
            TaskView::Batch { keys } => keys,
        }
    }
}

/// One deletion call to be made.
#[derive(Debug)]
pub enum DeletionTask {
    /// Delete one version or delete marker of one key.
    Single { key: String, version_id: String },
    /// Delete these keys with one multi-object call.
    Batch { keys: Vec<String> },
}

impl View for DeletionTask {
    type V = TaskView;

    open spec fn view(&self) -> TaskView {
        match self {
            DeletionTask::Single { key, version_id } => TaskView::Single {
                key: key@,
                version_id: version_id@,
            },
            DeletionTask::Batch { keys } => TaskView::Batch { keys: texts_of(keys@) },
        }
    }
}

impl DeletionTask {
    /// The number of targets that the call deletes.
    pub fn size(&self) -> (n: usize)
        ensures
            n == self@.size(),
    {
        match self {
            DeletionTask::Single { .. } => 1,
            DeletionTask::Batch { keys } => keys.len(),
        }
    }
}

/// The calls that a sequence of tasks stands for, in order.
pub open spec fn tasks_view(tasks: Seq<DeletionTask>) -> Seq<TaskView> {
    tasks.map_values(|t: DeletionTask| t@)
}

/// The number of targets that a sequence of calls deletes.
pub open spec fn total_targets(tasks: Seq<TaskView>) -> nat
    decreases tasks.len(),
{
    if tasks.len() == 0 {
        0
    } else {
        total_targets(tasks.drop_last()) + tasks.last().size()
    }
}

/// The number of multi-object calls in a sequence of calls.
pub open spec fn batch_calls(tasks: Seq<TaskView>) -> nat
    decreases tasks.len(),
{
    if tasks.len() == 0 {
        0
    } else {
        batch_calls(tasks.drop_last()) + if tasks.last() is Batch {
            1nat
        } else {
            0nat
        }
    }
}

/// The single-target calls for the version-qualified targets of an inventory,
/// in the inventory's order.
pub open spec fn versioned_tasks(inventory: Seq<TargetView>) -> Seq<TaskView>
    decreases inventory.len(),
{
    if inventory.len() == 0 {
        Seq::empty()
    } else {
        let rest = versioned_tasks(inventory.drop_last());
        match inventory.last().version_id {
            Some(version_id) => rest.push(
                TaskView::Single { key: inventory.last().key, version_id },
            ),
            None => rest,
        }
    }
}

/// The keys of the targets without a version, in the inventory's order.
pub open spec fn plain_keys(inventory: Seq<TargetView>) -> Seq<Seq<char>>
    decreases inventory.len(),
{
    if inventory.len() == 0 {
        Seq::empty()
    } else {
        let rest = plain_keys(inventory.drop_last());
        match inventory.last().version_id {
            Some(_) => rest,
            None => rest.push(inventory.last().key),
        }
    }
}

/// The number of chunks that `n` keys fall into: `n / CHUNK_SIZE`, rounded up.
pub open spec fn chunk_count(n: nat) -> nat {
    if n % (CHUNK_SIZE as nat) == 0 {
        n / (CHUNK_SIZE as nat)
    } else {
        n / (CHUNK_SIZE as nat) + 1
    }
}

/// The `i`-th chunk of `keys`: the keys from position `i * CHUNK_SIZE` up to
/// the next multiple of `CHUNK_SIZE`, or to the end where that comes first.
pub open spec fn chunk(keys: Seq<Seq<char>>, i: int) -> Seq<Seq<char>> {
    let start = i * CHUNK_SIZE;
    let end = if start + CHUNK_SIZE <= keys.len() {
        start + CHUNK_SIZE
    } else {
        keys.len() as int
    };
    keys.subrange(start, end)
}

/// The multi-object calls for `keys`: one per chunk, in order.
pub open spec fn batches(keys: Seq<Seq<char>>) -> Seq<TaskView> {
    Seq::new(chunk_count(keys.len()), |i: int| TaskView::Batch { keys: chunk(keys, i) })
}

/// The calls that empty an inventory: first one call for each
/// version-qualified target, then the multi-object calls for the keys of the
/// other targets.
pub open spec fn plan_view(inventory: Seq<TargetView>) -> Seq<TaskView> {
    versioned_tasks(inventory) + batches(plain_keys(inventory))
}

/// Groups keys into the multi-object calls that delete them.
pub fn batch_keys(keys: Vec<String>) -> (tasks: Vec<DeletionTask>)
    ensures
        tasks_view(tasks@) == batches(texts_of(keys@)),
{
    let ghost all = texts_of(keys@);
    let mut tasks: Vec<DeletionTask> = Vec::new();
    let mut current: Vec<String> = Vec::new();
    for key in it: keys
        invariant
            it.seq() == keys@,
            all == texts_of(keys@),
            it.index() == CHUNK_SIZE * tasks@.len() + current@.len(),
            current@.len() < CHUNK_SIZE,
            forall|j: int|
                0 <= j < tasks@.len() ==> (#[trigger] tasks@[j])@ == (TaskView::Batch {
                    keys: chunk(all, j),
                }),
            texts_of(current@) == all.subrange(CHUNK_SIZE * tasks@.len(), it.index() as int),
    {
        let ghost before = texts_of(current@);
        current.push(key);
        assert(texts_of(current@) =~= before.push(key@));
        assert(texts_of(current@) =~= all.subrange(
            CHUNK_SIZE * tasks@.len(),
            it.index() as int + 1,
        ));
        if current.len() == CHUNK_SIZE {
            let ghost done = tasks@;
            let ghost full = current@;
            tasks.push(DeletionTask::Batch { keys: current });
            current = Vec::new();
            assert(chunk(all, done.len() as int) == texts_of(full));
            assert(texts_of(current@) =~= all.subrange(
                CHUNK_SIZE * tasks@.len(),
                it.index() as int + 1,
            ));
        }
    }
    if current.len() > 0 {
        assert(chunk(all, tasks@.len() as int) == texts_of(current@));
        tasks.push(DeletionTask::Batch { keys: current });
    }
    assert(tasks_view(tasks@) =~= batches(all));
    tasks
}

/// Turns an inventory into the deletion calls that empty it.
pub fn plan(inventory: Vec<DeletionTarget>) -> (tasks: Vec<DeletionTask>)
    ensures
        tasks_view(tasks@) == plan_view(inventory_view(inventory@)),
{
    let ghost all = inventory_view(inventory@);
    let mut tasks: Vec<DeletionTask> = Vec::new();
    let mut keys: Vec<String> = Vec::new();
    for target in it: inventory
        invariant
            it.seq() == inventory@,
            all == inventory_view(inventory@),
            tasks_view(tasks@) == versioned_tasks(all.take(it.index() as int)),
            texts_of(keys@) == plain_keys(all.take(it.index() as int)),
    {
        let ghost seen = all.take(it.index() as int);
        let ghost tasks_before = tasks_view(tasks@);
        let ghost keys_before = texts_of(keys@);
        assert(all.take(it.index() as int + 1).drop_last() =~= seen);
        assert(all.take(it.index() as int + 1).last() == target@);
        match target.version_id {
            Some(version_id) => {
                tasks.push(DeletionTask::Single { key: target.key, version_id });
                assert(tasks_view(tasks@) =~= tasks_before.push(tasks@.last()@));
            },
            None => {
                keys.push(target.key);
                assert(texts_of(keys@) =~= keys_before.push(keys@.last()@));
            },
        }
    }
    assert(all.take(all.len() as int) =~= all);
    let ghost singles = tasks_view(tasks@);
    let mut grouped = batch_keys(keys);
    let ghost grouped_view = tasks_view(grouped@);
    tasks.append(&mut grouped);
    assert(tasks_view(tasks@) =~= singles + grouped_view);
    tasks
}

/// Every chunk holds at least one key and at most `CHUNK_SIZE`.
pub proof fn lemma_chunk_bounds(keys: Seq<Seq<char>>, i: int)
    requires
        0 <= i < chunk_count(keys.len()),
    ensures
        1 <= chunk(keys, i).len() <= CHUNK_SIZE,
{
}

/// The targets of two runs of calls add up.
pub proof fn lemma_total_targets_concat(a: Seq<TaskView>, b: Seq<TaskView>)
    ensures
        total_targets(a + b) == total_targets(a) + total_targets(b),
        batch_calls(a + b) == batch_calls(a) + batch_calls(b),
    decreases b.len(),
{
    if b.len() == 0 {
        assert(a + b =~= a);
    } else {
        assert((a + b).drop_last() =~= a + b.drop_last());
        assert((a + b).last() == b.last());
        lemma_total_targets_concat(a, b.drop_last());
    }
}

/// Every target of an inventory is either version-qualified, and then has a
/// call of its own, or is not, and then gives its key to the multi-object
/// calls.
pub proof fn lemma_versioned_tasks(inventory: Seq<TargetView>)
    ensures
        versioned_tasks(inventory).len() + plain_keys(inventory).len() == inventory.len(),
        total_targets(versioned_tasks(inventory)) == versioned_tasks(inventory).len(),
        batch_calls(versioned_tasks(inventory)) == 0,
        forall|i: int|
            0 <= i < versioned_tasks(inventory).len() ==> #[trigger] versioned_tasks(
                inventory,
            )[i] is Single,
    decreases inventory.len(),
{
    if inventory.len() > 0 {
        let rest = versioned_tasks(inventory.drop_last());
        lemma_versioned_tasks(inventory.drop_last());
        if inventory.last().version_id is Some {
            assert(versioned_tasks(inventory).drop_last() =~= rest);
        }
    }
}

/// The first `count` chunks of `keys` hold its first `count * CHUNK_SIZE`
/// keys, or all of them where there are fewer.
proof fn lemma_batches_prefix(keys: Seq<Seq<char>>, count: nat)
    requires
        count <= chunk_count(keys.len()),
    ensures
        total_targets(batches(keys).take(count as int)) == if count * CHUNK_SIZE <= keys.len() {
            count * CHUNK_SIZE
        } else {
            keys.len() as int
        },
        batch_calls(batches(keys).take(count as int)) == count,
    decreases count,
{
    if count > 0 {
        let shorter = batches(keys).take(count as int - 1);
        lemma_batches_prefix(keys, (count - 1) as nat);
        assert(batches(keys).take(count as int).drop_last() =~= shorter);
        assert(batches(keys).take(count as int).last() == batches(keys)[count as int - 1]);
    }
}

/// The multi-object calls for `keys` delete as many targets as there are
/// keys, and there is one call per chunk.
pub proof fn lemma_batches(keys: Seq<Seq<char>>)
    ensures
        total_targets(batches(keys)) == keys.len(),
        batch_calls(batches(keys)) == chunk_count(keys.len()),
{
    lemma_batches_prefix(keys, chunk_count(keys.len()));
    assert(batches(keys).take(chunk_count(keys.len()) as int) =~= batches(keys));
}

/// The plan of an inventory deletes as many targets as the inventory holds.
pub proof fn lemma_plan_covers_inventory(inventory: Seq<TargetView>)
    ensures
        total_targets(plan_view(inventory)) == inventory.len(),
{
    lemma_versioned_tasks(inventory);
    lemma_batches(plain_keys(inventory));
    lemma_total_targets_concat(versioned_tasks(inventory), batches(plain_keys(inventory)));
}

/// Chunking: the plan of an inventory makes as many multi-object calls as
/// the number of its targets without a version, divided by `CHUNK_SIZE` and
/// rounded up, and none of these calls carries more than `CHUNK_SIZE` keys,
/// nor fewer than one.
pub proof fn lemma_chunking(inventory: Seq<TargetView>)
    ensures
        batch_calls(plan_view(inventory)) == chunk_count(plain_keys(inventory).len()),
        CHUNK_SIZE * (batch_calls(plan_view(inventory)) - 1) < plain_keys(inventory).len()
            <= CHUNK_SIZE * batch_calls(plan_view(inventory)),
        forall|i: int|
            0 <= i < plan_view(inventory).len() && #[trigger] plan_view(inventory)[i] is Batch
                ==> 1 <= plan_view(inventory)[i].size() <= CHUNK_SIZE,
{
    let keys = plain_keys(inventory);
    lemma_versioned_tasks(inventory);
    lemma_batches(keys);
    lemma_total_targets_concat(versioned_tasks(inventory), batches(keys));
    assert forall|i: int|
        0 <= i < plan_view(inventory).len() && #[trigger] plan_view(inventory)[i] is Batch
        implies 1 <= plan_view(inventory)[i].size() <= CHUNK_SIZE by {
        let singles = versioned_tasks(inventory).len();
        if i < singles {
            assert(plan_view(inventory)[i] == versioned_tasks(inventory)[i]);
        } else {
            assert(plan_view(inventory)[i] == batches(keys)[i - singles]);
            lemma_chunk_bounds(keys, i - singles);
        }
    }
}

} // verus!
