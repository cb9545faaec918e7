//! Dispatch of deletion calls under a concurrency ceiling.
//!
//! A [`Scheduler`] holds the deletion calls of one eviction pass. A driver
//! asks it what to do next, takes a token from its rate limiter when asked
//! to, starts the calls it hands out, and reports each call's outcome when
//! the call has completed. The scheduler never hands out more calls than the
//! ceiling allows to run at once, hands out each call against a token of
//! its own, waits for every call it handed out, and ends with the totals of
//! the pass.

use vstd::prelude::*;
use crate::outcome::{count_failures, failures, lemma_failures_bound, BatchOutcome, EvictionResult, OutcomeView};
use crate::plan::{lemma_plan_covers_inventory, plan, plan_view, tasks_view, total_targets, DeletionTask, TaskView};
use crate::target::{inventory_view, DeletionTarget, TargetView};

verus! {

/// The number of deletion calls that run at once unless a driver asks for
/// another ceiling.
pub const DEFAULT_CONCURRENCY: usize = 2;

/// The number of deletion calls that a driver's rate limiter lets start per
/// second.
pub const CALLS_PER_SECOND: u32 = 500;

/// How far one deletion call has come.
#[derive(Clone, Copy, Debug, PartialEq, Eq, Structural)]
pub enum Slot {
    /// Not handed out yet.
    Pending,
    /// Handed out and not yet reported back: the call holds a concurrency
    /// slot.
    Running,
    /// Reported back; `failed` of its targets were not deleted.
    Settled { failed: usize },
}

impl Slot {
    /// The targets that the call is known to have failed for.
    pub open spec fn failed(self) -> nat {
        match self {
            Slot::Settled { failed } => failed as nat,
            _ => 0,
        }
    }
}

/// The number of calls that were handed out, running or settled.
pub open spec fn started(slots: Seq<Slot>) -> nat
    decreases slots.len(),
{
    if slots.len() == 0 {
        0
    } else {
        started(slots.drop_last()) + if slots.last() is Pending {
            0nat
        } else {
            1nat
        }
    }
}

/// The number of calls that hold a concurrency slot.
pub open spec fn running(slots: Seq<Slot>) -> nat
    decreases slots.len(),
{
    if slots.len() == 0 {
        0
    } else {
        running(slots.drop_last()) + if slots.last() is Running {
            1nat
        } else {
            0nat
        }
    }
}

/// The number of targets that the settled calls failed for.
pub open spec fn failed_total(slots: Seq<Slot>) -> nat
    decreases slots.len(),
{
    if slots.len() == 0 {
        0
    } else {
        failed_total(slots.drop_last()) + slots.last().failed()
    }
}

/// The state of a scheduler: the calls of the pass, how far each has come,
/// the ceiling on calls that run at once, and whether a token of the rate
/// limiter is at hand for the next call.
pub struct SchedulerView {
    pub tasks: Seq<TaskView>,
    pub slots: Seq<Slot>,
    pub ceiling: nat,
    pub token: bool,
}

impl SchedulerView {
    /// The state before any call was handed out.
    pub open spec fn fresh(tasks: Seq<TaskView>, ceiling: nat) -> SchedulerView {
        SchedulerView {
            tasks,
            slots: Seq::new(tasks.len(), |i: int| Slot::Pending),
            ceiling,
            token: false,
        }
    }

    /// What holds of every state that a scheduler reaches: calls are handed
    /// out in order, no more of them run than the ceiling allows, and a
    /// settled call failed for no more targets than it has.
    pub open spec fn wf(self) -> bool {
        &&& self.slots.len() == self.tasks.len()
        &&& 1 <= self.ceiling
        &&& running(self.slots) <= self.ceiling
        &&& forall|i: int|
            0 <= i < self.slots.len() ==> ((#[trigger] self.slots[i]) is Pending <==> started(
                self.slots,
            ) <= i)
        &&& forall|i: int|
            0 <= i < self.slots.len() ==> (#[trigger] self.slots[i]).failed()
                <= self.tasks[i].size()
    }

    /// Whether a call can be handed out: one is left, and a concurrency slot
    /// is free.
    pub open spec fn can_start(self) -> bool {
        started(self.slots) < self.tasks.len() && running(self.slots) < self.ceiling
    }

    /// The state after a token of the rate limiter was granted.
    pub open spec fn grant(self) -> SchedulerView {
        SchedulerView { token: true, ..self }
    }

    /// The state after the next call was handed out: the call runs, and the
    /// token is used up.
    pub open spec fn start(self) -> SchedulerView {
        SchedulerView {
            slots: self.slots.update(started(self.slots) as int, Slot::Running),
            token: false,
            ..self
        }
    }

    /// Whether the call at `index` is running.
    pub open spec fn is_running(self, index: int) -> bool {
        0 <= index < self.slots.len() && self.slots[index] is Running
    }

    /// The state after the call at `index` reported `outcome`.
    pub open spec fn settle(self, index: int, outcome: OutcomeView) -> SchedulerView {
        SchedulerView {
            slots: self.slots.update(
                index,
                Slot::Settled { failed: failures(self.tasks[index], outcome) as usize },
            ),
            ..self
        }
    }

    /// Whether every call was handed out and has reported back.
    pub open spec fn finished(self) -> bool {
        started(self.slots) == self.tasks.len() && running(self.slots) == 0
    }

    /// The number of targets that the settled calls deleted, once the pass
    /// has finished: all targets but the failed ones.
    pub open spec fn successful(self) -> int {
        total_targets(self.tasks) - failed_total(self.slots)
    }
}

/// No more calls were handed out than there are, and only those run.
pub proof fn lemma_started_bound(slots: Seq<Slot>)
    ensures
        running(slots) <= started(slots) <= slots.len(),
    decreases slots.len(),
{
    if slots.len() > 0 {
        lemma_started_bound(slots.drop_last());
    }
}

/// What replacing one slot does to the counts.
pub proof fn lemma_slot_update(slots: Seq<Slot>, index: int, slot: Slot)
    requires
        0 <= index < slots.len(),
    ensures
        started(slots.update(index, slot)) == started(slots) - started(seq![slots[index]])
            + started(seq![slot]),
        running(slots.update(index, slot)) == running(slots) - running(seq![slots[index]])
            + running(seq![slot]),
        failed_total(slots.update(index, slot)) == failed_total(slots) - slots[index].failed()
            + slot.failed(),
    decreases slots.len(),
{
    lemma_single_slot(slots[index]);
    lemma_single_slot(slot);
    if index == slots.len() - 1 {
        assert(slots.update(index, slot).drop_last() =~= slots.drop_last());
    } else {
        assert(slots.update(index, slot).drop_last() =~= slots.drop_last().update(index, slot));
        lemma_slot_update(slots.drop_last(), index, slot);
    }
}

/// The counts of a single slot.
pub proof fn lemma_single_slot(slot: Slot)
    ensures
        started(seq![slot]) == if slot is Pending {
            0nat
        } else {
            1nat
        },
        running(seq![slot]) == if slot is Running {
            1nat
        } else {
            0nat
        },
        failed_total(seq![slot]) == slot.failed(),
{
    let empty = Seq::<Slot>::empty();
    assert(seq![slot].drop_last() =~= empty);
    assert(started(empty) == 0);
    assert(running(empty) == 0);
    assert(failed_total(empty) == 0);
}

/// Before any call was handed out, none runs and none has failed.
pub proof fn lemma_fresh(tasks: Seq<TaskView>, ceiling: nat)
    ensures
        started(SchedulerView::fresh(tasks, ceiling).slots) == 0,
        running(SchedulerView::fresh(tasks, ceiling).slots) == 0,
        failed_total(SchedulerView::fresh(tasks, ceiling).slots) == 0,
        1 <= ceiling ==> SchedulerView::fresh(tasks, ceiling).wf(),
    decreases tasks.len(),
{
    if tasks.len() > 0 {
        lemma_fresh(tasks.drop_last(), ceiling);
        assert(SchedulerView::fresh(tasks, ceiling).slots.drop_last() =~= SchedulerView::fresh(
            tasks.drop_last(),
            ceiling,
        ).slots);
    }
}

/// The settled calls failed for no more targets than the pass has.
pub proof fn lemma_failed_bound(tasks: Seq<TaskView>, slots: Seq<Slot>)
    requires
        slots.len() == tasks.len(),
        forall|i: int| 0 <= i < slots.len() ==> (#[trigger] slots[i]).failed() <= tasks[i].size(),
    ensures
        failed_total(slots) <= total_targets(tasks),
    decreases slots.len(),
{
    if slots.len() > 0 {
        assert forall|i: int| 0 <= i < slots.drop_last().len() implies (#[trigger] slots.drop_last()[i]).failed()
            <= tasks.drop_last()[i].size() by {
            assert(slots.drop_last()[i] == slots[i]);
        }
        lemma_failed_bound(tasks.drop_last(), slots.drop_last());
        assert(slots.last() == slots[slots.len() - 1]);
    }
}

/// Handing out a call keeps the state well formed, and takes one more
/// concurrency slot.
pub proof fn lemma_start(state: SchedulerView)
    requires
        state.wf(),
        state.can_start(),
    ensures
        state.start().wf(),
        started(state.start().slots) == started(state.slots) + 1,
        running(state.start().slots) == running(state.slots) + 1,
        failed_total(state.start().slots) == failed_total(state.slots),
{
    let index = started(state.slots) as int;
    assert(state.slots[index] is Pending);
    lemma_slot_update(state.slots, index, Slot::Running);
    lemma_single_slot(state.slots[index]);
    lemma_single_slot(Slot::Running);
    let after = state.start();
    assert forall|i: int| 0 <= i < after.slots.len() implies ((#[trigger] after.slots[i]) is Pending
        <==> started(after.slots) <= i) by {
        if i != index {
            assert(after.slots[i] == state.slots[i]);
        }
    }
    assert forall|i: int| 0 <= i < after.slots.len() implies (#[trigger] after.slots[i]).failed()
        <= after.tasks[i].size() by {
        if i != index {
            assert(after.slots[i] == state.slots[i]);
        }
    }
}

/// Settling a running call keeps the state well formed, frees its
/// concurrency slot and adds its failures to the total.
pub proof fn lemma_settle(state: SchedulerView, index: int, outcome: OutcomeView)
    requires
        state.wf(),
        state.is_running(index),
        total_targets(state.tasks) <= usize::MAX,
    ensures
        state.settle(index, outcome).wf(),
        started(state.settle(index, outcome).slots) == started(state.slots),
        running(state.settle(index, outcome).slots) == running(state.slots) - 1,
        failed_total(state.settle(index, outcome).slots) == failed_total(state.slots) + failures(
            state.tasks[index],
            outcome,
        ),
        failed_total(state.settle(index, outcome).slots) <= total_targets(state.tasks),
{
    let failed = failures(state.tasks[index], outcome);
    lemma_failures_bound(state.tasks[index], outcome);
    lemma_task_size_bound(state.tasks, index);
    let slot = Slot::Settled { failed: failed as usize };
    assert(slot.failed() == failed);
    lemma_slot_update(state.slots, index, slot);
    lemma_single_slot(state.slots[index]);
    lemma_single_slot(slot);
    let after = state.settle(index, outcome);
    assert forall|i: int| 0 <= i < after.slots.len() implies ((#[trigger] after.slots[i]) is Pending
        <==> started(after.slots) <= i) by {
        if i != index {
            assert(after.slots[i] == state.slots[i]);
        } else {
            assert(!(state.slots[i] is Pending));
        }
    }
    assert forall|i: int| 0 <= i < after.slots.len() implies (#[trigger] after.slots[i]).failed()
        <= after.tasks[i].size() by {
        if i != index {
            assert(after.slots[i] == state.slots[i]);
        }
    }
    lemma_failed_bound(after.tasks, after.slots);
}

/// No call has more targets than the pass.
pub proof fn lemma_task_size_bound(tasks: Seq<TaskView>, index: int)
    requires
        0 <= index < tasks.len(),
    ensures
        tasks[index].size() <= total_targets(tasks),
    decreases tasks.len(),
{
    if index < tasks.len() - 1 {
        lemma_task_size_bound(tasks.drop_last(), index);
    }
}

/// Every target is accounted for: when a pass has finished, the targets it
/// deleted and the targets it failed for add up to the targets of its calls.
pub proof fn lemma_every_target_counted(state: SchedulerView)
    requires
        state.wf(),
        state.finished(),
    ensures
        0 <= state.successful(),
        state.successful() + failed_total(state.slots) == total_targets(state.tasks),
{
    lemma_failed_bound(state.tasks, state.slots);
}

/// Every target of an inventory is accounted for: when the pass over the
/// plan of an inventory has finished, the targets it deleted and the targets
/// it failed for add up to the length of the inventory.
pub proof fn lemma_inventory_accounted(inventory: Seq<TargetView>, state: SchedulerView)
    requires
        state.wf(),
        state.tasks == plan_view(inventory),
        state.finished(),
    ensures
        0 <= state.successful(),
        0 <= failed_total(state.slots),
        state.successful() + failed_total(state.slots) == inventory.len(),
{
    lemma_every_target_counted(state);
    lemma_plan_covers_inventory(inventory);
}

/// A token for every call: handing out a call uses up the token at hand, so
/// that the next call waits for a token of its own. With a rate limiter
/// that grants no more tokens in a second than its rate, no more calls start
/// in a second than that.
pub proof fn lemma_token_for_every_call(state: SchedulerView)
    requires
        state.wf(),
        state.can_start(),
    ensures
        !state.start().token,
        state.start().can_start() ==> !state.start().token,
        state.grant().token,
        state.grant().wf(),
{
}

/// The concurrency bound: in a well-formed state no more calls run than the
/// ceiling allows, and a call is handed out only where a slot is free.
pub proof fn lemma_concurrency_bound(state: SchedulerView)
    requires
        state.wf(),
    ensures
        running(state.slots) <= state.ceiling,
        state.can_start() ==> running(state.start().slots) <= state.ceiling,
{
    if state.can_start() {
        lemma_start(state);
    }
}

/// What a driver is to do next.
#[derive(Clone, Copy, Debug, PartialEq, Eq, Structural)]
pub enum Dispatch {
    /// A call could start, but no token is at hand: wait until the rate
    /// limiter grants one, and report it.
    AcquireToken,
    /// Start the call at `index`: issue it, and report its outcome when it
    /// has completed.
    Start { index: usize },
    /// No call can start now: wait for a running call to complete.
    Wait,
    /// Every call has completed: the pass ended with these totals.
    Finished(EvictionResult),
}

/// The deletion calls of one eviction pass and how far each has come.
pub struct Scheduler {
    tasks: Vec<DeletionTask>,
    slots: Vec<Slot>,
    ceiling: usize,
    token: bool,
    next: usize,
    running: usize,
    failed: usize,
    total: usize,
}

impl View for Scheduler {
    type V = SchedulerView;

    closed spec fn view(&self) -> SchedulerView {
        SchedulerView {
            tasks: tasks_view(self.tasks@),
            slots: self.slots@,
            ceiling: self.ceiling as nat,
            token: self.token,
        }
    }
}

impl Scheduler {
    #[verifier::type_invariant]
    spec fn inv(self) -> bool {
        &&& self@.wf()
        &&& self.next == started(self.slots@)
        &&& self.running == running(self.slots@)
        &&& self.failed == failed_total(self.slots@)
        &&& self.total == total_targets(tasks_view(self.tasks@))
    }

    /// Plans the deletion calls for `inventory` and holds them ready, none
    /// handed out yet. `ceiling` is the number of calls that may run at
    /// once; with a ceiling of zero no call could ever run, and there is no
    /// scheduler.
    pub fn new(inventory: Vec<DeletionTarget>, ceiling: usize) -> (r: Option<Scheduler>)
        ensures
            r is Some <==> ceiling >= 1,
            r matches Some(s) ==> {
                &&& s@ == SchedulerView::fresh(
                    plan_view(inventory_view(inventory@)),
                    ceiling as nat,
                )
                &&& s@.wf()
                &&& total_targets(s@.tasks) == inventory@.len()
            },
    {
        if ceiling == 0 {
            return None;
        }
        let total = inventory.len();
        let tasks = plan(inventory);
        let mut slots: Vec<Slot> = Vec::new();
        let mut i: usize = 0;
        while i < tasks.len()
            invariant
                i <= tasks@.len(),
                slots@ == Seq::new(i as nat, |j: int| Slot::Pending),
            decreases tasks@.len() - i,
        {
            slots.push(Slot::Pending);
            assert(slots@ =~= Seq::new((i + 1) as nat, |j: int| Slot::Pending));
            i += 1;
        }
        proof {
            lemma_plan_covers_inventory(inventory_view(inventory@));
            lemma_fresh(tasks_view(tasks@), ceiling as nat);
            assert(slots@ =~= SchedulerView::fresh(tasks_view(tasks@), ceiling as nat).slots);
        }
        Some(Scheduler { tasks, slots, ceiling, token: false, next: 0, running: 0, failed: 0, total })
    }

    /// Takes note that the rate limiter has granted a token.
    pub fn grant(self) -> (r: Scheduler)
        ensures
            r@ == self@.grant(),
            r@.wf(),
    {
        proof {
            use_type_invariant(&self);
        }
        let Scheduler { tasks, slots, ceiling, token: _, next, running, failed, total } = self;
        Scheduler { tasks, slots, ceiling, token: true, next, running, failed, total }
    }

    /// Says what the driver is to do next. Where a call is left and a
    /// concurrency slot is free, the call is handed out against the token at
    /// hand, or a token is asked for where none is at hand. Else the driver
    /// is to wait while calls run, and the pass has finished when none does.
    pub fn next(self) -> (r: (Scheduler, Dispatch))
        ensures
            r.0@.wf(),
            running(r.0@.slots) <= r.0@.ceiling,
            self@.can_start() && self@.token ==> r.0@ == self@.start() && r.1 is Start,
            self@.can_start() && !self@.token ==> r.0@ == self@ && r.1 is AcquireToken,
            !self@.can_start() ==> r.0@ == self@,
            !self@.can_start() && !self@.finished() ==> r.1 is Wait,
            self@.finished() ==> r.1 is Finished,
            r.1 matches Dispatch::Start { index } ==> index == started(self@.slots),
            r.1 matches Dispatch::Finished(result) ==> {
                &&& result.successful_count == self@.successful()
                &&& result.failed_count == failed_total(self@.slots)
                &&& result.successful_count + result.failed_count == total_targets(self@.tasks)
            },
    {
        proof {
            use_type_invariant(&self);
            lemma_failed_bound(self@.tasks, self@.slots);
            lemma_started_bound(self@.slots);
        }
        let ghost before = self@;
        let Scheduler { tasks, mut slots, ceiling, token, next, running, failed, total } = self;
        if next < slots.len() && running < ceiling {
            if token {
                slots.set(next, Slot::Running);
                proof {
                    lemma_start(before);
                }
                (
                    Scheduler {
                        tasks,
                        slots,
                        ceiling,
                        token: false,
                        next: next + 1,
                        running: running + 1,
                        failed,
                        total,
                    },
                    Dispatch::Start { index: next },
                )
            } else {
                (
                    Scheduler { tasks, slots, ceiling, token, next, running, failed, total },
                    Dispatch::AcquireToken,
                )
            }
        } else if running > 0 {
            (Scheduler { tasks, slots, ceiling, token, next, running, failed, total }, Dispatch::Wait)
        } else {
            let result = EvictionResult { successful_count: total - failed, failed_count: failed };
            (
                Scheduler { tasks, slots, ceiling, token, next, running, failed, total },
                Dispatch::Finished(result),
            )
        }
    }

    /// Takes the outcome of the call at `index`. Where that call is running,
    /// its slot is freed, its failures are counted, and the result is
    /// `true`: one completed call, one tick of progress. Any other report
    /// changes nothing and gives `false`.
    pub fn complete(self, index: usize, outcome: &BatchOutcome) -> (r: (Scheduler, bool))
        ensures
            r.0@.wf(),
            running(r.0@.slots) <= r.0@.ceiling,
            r.1 == self@.is_running(index as int),
            self@.is_running(index as int) ==> r.0@ == self@.settle(index as int, outcome@),
            !self@.is_running(index as int) ==> r.0@ == self@,
    {
        proof {
            use_type_invariant(&self);
        }
        let ghost before = self@;
        let Scheduler { tasks, mut slots, ceiling, token, next, running, failed, total } = self;
        if index < slots.len() && matches!(slots[index], Slot::Running) {
            let lost = count_failures(&tasks[index], outcome);
            proof {
                lemma_settle(before, index as int, outcome@);
                lemma_failures_bound(before.tasks[index as int], outcome@);
                lemma_task_size_bound(before.tasks, index as int);
            }
            slots.set(index, Slot::Settled { failed: lost });
            (
                Scheduler {
                    tasks,
                    slots,
                    ceiling,
                    token,
                    next,
                    running: running - 1,
                    failed: failed + lost,
                    total,
                },
                true,
            )
        } else {
            (Scheduler { tasks, slots, ceiling, token, next, running, failed, total }, false)
        }
    }

    /// The call at `index`, if the pass has one there.
    pub fn task(&self, index: usize) -> (r: Option<&DeletionTask>)
        ensures
            r is Some <==> index < self@.tasks.len(),
            r matches Some(task) ==> task@ == self@.tasks[index as int],
    {
        proof {
            use_type_invariant(self);
        }
        if index < self.tasks.len() {
            Some(&self.tasks[index])
        } else {
            None
        }
    }

    /// The number of calls of the pass.
    pub fn task_count(&self) -> (n: usize)
        ensures
            n == self@.tasks.len(),
    {
        self.tasks.len()
    }

    /// The number of targets of the pass.
    pub fn target_count(&self) -> (n: usize)
        ensures
            n == total_targets(self@.tasks),
    {
        proof {
            use_type_invariant(self);
        }
        self.total
    }

    /// The number of calls that run now.
    pub fn in_flight(&self) -> (n: usize)
        ensures
            n == running(self@.slots),
            n <= self@.ceiling,
    {
        proof {
            use_type_invariant(self);
        }
        self.running
    }

    /// The number of calls that have completed.
    pub fn completed(&self) -> (n: usize)
        ensures
            n == started(self@.slots) - running(self@.slots),
    {
        proof {
            use_type_invariant(self);
            lemma_started_bound(self@.slots);
        }
        self.next - self.running
    }

    /// The number of calls that may run at once.
    pub fn ceiling(&self) -> (n: usize)
        ensures
            n == self@.ceiling,
    {
        self.ceiling
    }
}

} // verus!
