//! The eviction pass over the versions and delete markers of a bucket.
//!
//! The pass lists every version and delete marker, page by page, and then
//! deletes each of them with a call of its own, under the concurrency
//! ceiling and against a token of the rate limiter. A failed listing call
//! ends the pass with the error, before any deletion. A failed deletion is
//! counted and ends nothing.

use vstd::prelude::*;
use crate::enumerate::{reply_view, CursorView, EnumerationError, Enumerator, EnumeratorView, FailureView, ListingMode, ListingPage, ListingStep, PageCursor, PageView, StepView};
use crate::outcome::{BatchOutcome, EvictionResult, OutcomeView};
use crate::plan::{plan_view, total_targets, DeletionTask, TaskView};
use crate::scheduler::{failed_total, lemma_every_target_counted, running, started, Dispatch, Scheduler, SchedulerView};
use crate::target::copy_text;

verus! {

/// The state of a pass.
pub enum PassView {
    /// Pages are being listed; `ceiling` calls may run at once later.
    Listing { enumerator: EnumeratorView, ceiling: nat },
    /// Deletion calls are being dispatched.
    Deleting(SchedulerView),
    /// The pass has ended with this result.
    Done(Result<EvictionResult, FailureView>),
}

impl PassView {
    /// The deletion calls of the pass, once it has planned them and until
    /// it ends.
    pub open spec fn tasks(self) -> Seq<TaskView> {
        match self {
            PassView::Deleting(scheduler) => scheduler.tasks,
            _ => Seq::empty(),
        }
    }

    /// The number of deletion calls that have completed, while the pass
    /// dispatches its calls.
    pub open spec fn completed(self) -> int {
        match self {
            PassView::Deleting(scheduler) => started(scheduler.slots) - running(scheduler.slots),
            _ => 0,
        }
    }
}

/// What happened since the pass last said what to do.
pub enum PassEventView {
    Listed(Result<PageView, FailureView>),
    TokenGranted,
    Ready,
    Completed { index: int, outcome: OutcomeView },
}

/// What a driver reports to a pass.
pub enum PassEvent {
    /// The listing call that the pass asked for came to this.
    Listed(Result<ListingPage, EnumerationError>),
    /// The rate limiter has granted a token.
    TokenGranted,
    /// The call that the pass handed out has been started.
    Ready,
    /// The call at `index` has completed with `outcome`.
    Completed { index: usize, outcome: BatchOutcome },
}

impl View for PassEvent {
    type V = PassEventView;

    open spec fn view(&self) -> PassEventView {
        match self {
            PassEvent::Listed(reply) => PassEventView::Listed(reply_view(*reply)),
            PassEvent::TokenGranted => PassEventView::TokenGranted,
            PassEvent::Ready => PassEventView::Ready,
            PassEvent::Completed { index, outcome } => PassEventView::Completed {
                index: *index as int,
                outcome: outcome@,
            },
        }
    }
}

/// What a pass asks for.
pub enum PassActionView {
    List(CursorView),
    AcquireToken,
    Start { index: nat },
    Wait,
    Finish(Result<EvictionResult, FailureView>),
}

/// What a pass asks its driver to do.
pub enum PassAction {
    /// Call the version listing with this cursor and report the answer.
    List(PageCursor),
    /// Wait until the rate limiter grants a token, and report it.
    AcquireToken,
    /// Start the deletion call at `index`: issue it, report that it was
    /// started, and report its outcome when it has completed.
    Start { index: usize },
    /// Wait for a running call to complete and report its outcome.
    Wait,
    /// The pass has ended: with the totals, or with the listing error.
    Finish(Result<EvictionResult, EnumerationError>),
}

/// What a pass ended with.
pub open spec fn result_view(result: Result<EvictionResult, EnumerationError>) -> Result<
    EvictionResult,
    FailureView,
> {
    match result {
        Ok(totals) => Ok(totals),
        Err(error) => Err(error@),
    }
}

impl View for PassAction {
    type V = PassActionView;

    open spec fn view(&self) -> PassActionView {
        match self {
            PassAction::List(cursor) => PassActionView::List(cursor@),
            PassAction::AcquireToken => PassActionView::AcquireToken,
            PassAction::Start { index } => PassActionView::Start { index: *index as nat },
            PassAction::Wait => PassActionView::Wait,
            PassAction::Finish(result) => PassActionView::Finish(result_view(*result)),
        }
    }
}

/// The totals of a pass whose calls have all completed.
pub open spec fn totals(scheduler: SchedulerView) -> EvictionResult {
    EvictionResult {
        successful_count: scheduler.successful() as usize,
        failed_count: failed_total(scheduler.slots) as usize,
    }
}

/// What comes next in the deletion stage: where a call is left and a
/// concurrency slot is free, the call is handed out against the token at
/// hand, or a token is asked for where none is at hand; else the pass waits
/// while calls run; and it ends with the totals when every call has
/// completed.
pub open spec fn dispatch_next(scheduler: SchedulerView) -> (PassView, PassActionView) {
    if scheduler.can_start() {
        if scheduler.token {
            (
                PassView::Deleting(scheduler.start()),
                PassActionView::Start { index: started(scheduler.slots) },
            )
        } else {
            (PassView::Deleting(scheduler), PassActionView::AcquireToken)
        }
    } else if scheduler.finished() {
        (PassView::Done(Ok(totals(scheduler))), PassActionView::Finish(Ok(totals(scheduler))))
    } else {
        (PassView::Deleting(scheduler), PassActionView::Wait)
    }
}

/// The transition of a pass: its next state and what it asks for.
///
/// While listing, an answer is handed to the enumerator: another page is
/// asked for, or the inventory is planned and the deletion stage begins, or
/// the pass ends with the listing error. While deleting, a granted token is
/// taken note of, the outcome of a running call is counted, and what comes
/// next in the deletion stage follows.
/// A report that the pass did not ask for changes nothing: the pass repeats
/// what it asks for. After its end the pass repeats its result.
pub open spec fn pass_step(pass: PassView, event: PassEventView) -> (PassView, PassActionView) {
    match pass {
        PassView::Listing { enumerator, ceiling } => match event {
            PassEventView::Listed(reply) => match enumerator.accept(reply) {
                StepView::Continue(next) => (
                    PassView::Listing { enumerator: next, ceiling },
                    PassActionView::List(next.cursor),
                ),
                StepView::Complete(inventory) => dispatch_next(
                    SchedulerView::fresh(plan_view(inventory), ceiling),
                ),
                StepView::Failed(failure) => (
                    PassView::Done(Err(failure)),
                    PassActionView::Finish(Err(failure)),
                ),
            },
            _ => (pass, PassActionView::List(enumerator.cursor)),
        },
        PassView::Deleting(scheduler) => match event {
            PassEventView::TokenGranted => dispatch_next(scheduler.grant()),
            PassEventView::Completed { index, outcome } => dispatch_next(
                if scheduler.is_running(index) {
                    scheduler.settle(index, outcome)
                } else {
                    scheduler
                },
            ),
            _ => dispatch_next(scheduler),
        },
        PassView::Done(result) => (pass, PassActionView::Finish(result)),
    }
}

/// Every target is accounted for: a pass that ends after its calls have
/// completed reports as many targets, deleted and failed together, as its
/// calls had.
pub proof fn lemma_pass_counts_every_target(scheduler: SchedulerView)
    requires
        scheduler.wf(),
        total_targets(scheduler.tasks) <= usize::MAX,
    ensures
        dispatch_next(scheduler).1 matches PassActionView::Finish(Ok(result))
            ==> result.successful_count + result.failed_count == total_targets(scheduler.tasks),
{
    if scheduler.finished() {
        lemma_every_target_counted(scheduler);
    }
}

enum Stage {
    Listing { enumerator: Enumerator, ceiling: usize },
    Deleting(Scheduler),
    Done(Result<EvictionResult, EnumerationError>),
}

/// One eviction pass over the versions and delete markers of a bucket.
pub struct VersionPass {
    stage: Stage,
}

impl View for VersionPass {
    type V = PassView;

    closed spec fn view(&self) -> PassView {
        match self.stage {
            Stage::Listing { enumerator, ceiling } => PassView::Listing {
                enumerator: enumerator@,
                ceiling: ceiling as nat,
            },
            Stage::Deleting(scheduler) => PassView::Deleting(scheduler@),
            Stage::Done(result) => PassView::Done(result_view(result)),
        }
    }
}

/// A copy of what a pass ended with.
fn copy_result(result: &Result<EvictionResult, EnumerationError>) -> (copy: Result<
    EvictionResult,
    EnumerationError,
>)
    ensures
        result_view(copy) == result_view(*result),
{
    match result {
        Ok(totals) => Ok(*totals),
        Err(error) => Err(EnumerationError { code: copy_text(&error.code) }),
    }
}

/// Asks the scheduler what comes next and turns its answer into the state
/// and action of the pass.
fn hand_out(scheduler: Scheduler) -> (r: (VersionPass, PassAction))
    requires
        scheduler@.wf(),
    ensures
        (r.0@, r.1@) == dispatch_next(scheduler@),
        r.0.inv(),
{
    let (scheduler, dispatch) = scheduler.next();
    match dispatch {
        Dispatch::AcquireToken => (
            VersionPass { stage: Stage::Deleting(scheduler) },
            PassAction::AcquireToken,
        ),
        Dispatch::Start { index } => (
            VersionPass { stage: Stage::Deleting(scheduler) },
            PassAction::Start { index },
        ),
        Dispatch::Wait => (VersionPass { stage: Stage::Deleting(scheduler) }, PassAction::Wait),
        Dispatch::Finished(result) => (
            VersionPass { stage: Stage::Done(Ok(result)) },
            PassAction::Finish(Ok(result)),
        ),
    }
}

impl VersionPass {
    #[verifier::type_invariant]
    spec fn inv(self) -> bool {
        match self.stage {
            Stage::Listing { ceiling, .. } => ceiling >= 1,
            Stage::Deleting(scheduler) => scheduler@.wf(),
            Stage::Done(_) => true,
        }
    }

    /// A pass about to list the first page. `ceiling` is the number of
    /// deletion calls that may run at once; with a ceiling of zero no call
    /// could ever run, and there is no pass.
    pub fn begin(ceiling: usize) -> (r: Option<(VersionPass, PassAction)>)
        ensures
            r is Some <==> ceiling >= 1,
            r matches Some(begun) ==> {
                &&& begun.0@ == (PassView::Listing {
                    enumerator: EnumeratorView::start(ListingMode::VersionsAndMarkers),
                    ceiling: ceiling as nat,
                })
                &&& begun.1@ == PassActionView::List(CursorView::start())
            },
    {
        if ceiling == 0 {
            return None;
        }
        let enumerator = Enumerator::new(ListingMode::VersionsAndMarkers);
        let cursor = enumerator.cursor().duplicate();
        Some((VersionPass { stage: Stage::Listing { enumerator, ceiling } }, PassAction::List(cursor)))
    }

    /// The deletion call at `index`, once the pass has planned its calls
    /// and has one there.
    pub fn task(&self, index: usize) -> (r: Option<&DeletionTask>)
        ensures
            r is Some <==> index < self@.tasks().len(),
            r matches Some(task) ==> task@ == self@.tasks()[index as int],
    {
        match &self.stage {
            Stage::Deleting(scheduler) => scheduler.task(index),
            _ => None,
        }
    }

    /// The number of deletion calls that have completed and the number of
    /// deletion calls of the pass; both are zero while the pass is listing
    /// and after its end.
    pub fn progress(&self) -> (r: (usize, usize))
        ensures
            r.0 == self@.completed(),
            r.1 == self@.tasks().len(),
    {
        match &self.stage {
            Stage::Deleting(scheduler) => (scheduler.completed(), scheduler.task_count()),
            _ => (0, 0),
        }
    }
}

/// Advances an eviction pass over the versions and delete markers of a
/// bucket by one report of its driver, and says what the driver is to do
/// next.
pub fn delete_versioned_objects(pass: VersionPass, event: PassEvent) -> (r: (
    VersionPass,
    PassAction,
))
    ensures
        (r.0@, r.1@) == pass_step(pass@, event@),
{
    proof {
        use_type_invariant(&pass);
    }
    match pass.stage {
        Stage::Listing { enumerator, ceiling } => match event {
            PassEvent::Listed(reply) => match enumerator.accept(reply) {
                ListingStep::Continue(next) => {
                    let cursor = next.cursor().duplicate();
                    (
                        VersionPass { stage: Stage::Listing { enumerator: next, ceiling } },
                        PassAction::List(cursor),
                    )
                },
                ListingStep::Complete(inventory) => {
                    match Scheduler::new(inventory, ceiling) {
                        Some(scheduler) => hand_out(scheduler),
                        None => vstd::pervasive::unreached(),
                    }
                },
                ListingStep::Failed(error) => {
                    let result = Err(error);
                    let copy = copy_result(&result);
                    (VersionPass { stage: Stage::Done(result) }, PassAction::Finish(copy))
                },
            },
            _ => {
                let cursor = enumerator.cursor().duplicate();
                (VersionPass { stage: Stage::Listing { enumerator, ceiling } }, PassAction::List(cursor))
            },
        },
        Stage::Deleting(scheduler) => match event {
            PassEvent::TokenGranted => hand_out(scheduler.grant()),
            PassEvent::Completed { index, outcome } => {
                let (scheduler, _) = scheduler.complete(index, &outcome);
                hand_out(scheduler)
            },
            _ => hand_out(scheduler),
        },
        Stage::Done(result) => {
            let copy = copy_result(&result);
            (VersionPass { stage: Stage::Done(result) }, PassAction::Finish(copy))
        },
    }
}

} // verus!
