//! The sequence of stages that empties a bucket and removes it.
//!
//! The orchestrator is a state machine that halts on the first failure. Its
//! driver carries out what a [`Directive`] asks for, writes the directive's
//! progress lines to its output, and reports what came of the request as an
//! [`Event`].

use vstd::prelude::*;
use crate::enumerate::{EnumerationError, FailureView};
use crate::outcome::EvictionResult;
use crate::residual::{verify_empty, ResidualObjects};
use crate::target::{copy_text, inventory_view, text_of, DeletionTarget, TargetView};
use crate::versioning::{disable_versioning, VersioningState};

verus! {

/// What a failed call to remove the bucket says.
pub struct RemovalView {
    pub code: Option<Seq<char>>,
}

/// The call that removes the bucket failed. `code` is the error code of the
/// storage service, where it gave one.
#[derive(Debug)]
pub struct BucketDeletionFailed {
    pub code: Option<String>,
}

impl View for BucketDeletionFailed {
    type V = RemovalView;

    open spec fn view(&self) -> RemovalView {
        RemovalView { code: text_of(self.code) }
    }
}

/// Why the deletion of a bucket halted.
pub enum ErrorView {
    Enumeration(FailureView),
    VersionedEvictionIncomplete { failed_count: usize },
    BucketNotEmpty(ResidualObjects),
    BucketDeletionFailed(RemovalView),
}

/// Why the deletion of a bucket halted.
#[derive(Debug)]
pub enum EvictionError {
    /// A listing call failed.
    Enumeration(EnumerationError),
    /// The pass over versions and delete markers ended with targets that
    /// were not deleted.
    VersionedEvictionIncomplete { failed_count: usize },
    /// Objects were left in the bucket after the plain pass.
    BucketNotEmpty(ResidualObjects),
    /// The call that removes the bucket failed.
    BucketDeletionFailed(BucketDeletionFailed),
}

impl View for EvictionError {
    type V = ErrorView;

    open spec fn view(&self) -> ErrorView {
        match self {
            EvictionError::Enumeration(error) => ErrorView::Enumeration(error@),
            EvictionError::VersionedEvictionIncomplete { failed_count } => {
                ErrorView::VersionedEvictionIncomplete { failed_count: *failed_count }
            },
            EvictionError::BucketNotEmpty(residual) => ErrorView::BucketNotEmpty(*residual),
            EvictionError::BucketDeletionFailed(failure) => ErrorView::BucketDeletionFailed(
                failure@,
            ),
        }
    }
}

impl EvictionError {
    /// A copy of the error.
    pub fn duplicate(&self) -> (copy: EvictionError)
        ensures
            copy@ == self@,
    {
        match self {
            EvictionError::Enumeration(error) => EvictionError::Enumeration(
                EnumerationError { code: copy_text(&error.code) },
            ),
            EvictionError::VersionedEvictionIncomplete { failed_count } => {
                EvictionError::VersionedEvictionIncomplete { failed_count: *failed_count }
            },
            EvictionError::BucketNotEmpty(residual) => EvictionError::BucketNotEmpty(*residual),
            EvictionError::BucketDeletionFailed(failure) => EvictionError::BucketDeletionFailed(
                BucketDeletionFailed { code: copy_text(&failure.code) },
            ),
        }
    }
}

/// One line of progress, for the driver to write to its output.
#[derive(Clone, Copy, Debug, PartialEq, Eq, Structural)]
pub enum ProgressLine {
    /// The versioning state is about to be looked up.
    DisablingVersioning,
    /// The objects of the bucket are about to be listed.
    CollectingObjects,
    /// This many objects are about to be deleted.
    DeletingObjects { count: usize },
    /// This many objects were deleted, and the bucket was found empty.
    DeletedObjects { count: usize },
    /// The versions and delete markers are about to be listed and deleted.
    DeletingVersions,
    /// The pass over versions and delete markers ended with these totals.
    DeletedVersions { successful: usize, failed: usize },
    /// The bucket is about to be removed.
    DeletingBucket,
    /// The bucket was removed.
    BucketDeleted,
}

/// The stage that the deletion of a bucket has reached.
pub enum StageView {
    CheckVersioning,
    SuspendVersioning,
    EvictVersions,
    EnumeratePlain,
    EvictPlain { count: usize },
    VerifyEmpty { count: usize },
    DeleteBucket,
    Done,
    Halted(ErrorView),
}

/// What came of a request.
pub enum EventView {
    VersioningDetected(Option<VersioningState>),
    SuspendAttempted { suspended: bool },
    VersionsEvicted(Result<EvictionResult, FailureView>),
    ObjectsListed(Result<Seq<TargetView>, FailureView>),
    ObjectsEvicted(EvictionResult),
    ResidualCounted(Result<i32, FailureView>),
    BucketRemoved(Result<(), RemovalView>),
}

/// What a driver reports to the orchestrator.
pub enum Event {
    /// The versioning state was looked up; `None` where it could not be
    /// read.
    VersioningDetected(Option<VersioningState>),
    /// The service was asked to suspend versioning, with or without
    /// success.
    SuspendAttempted { suspended: bool },
    /// The pass over versions and delete markers ended.
    VersionsEvicted(Result<EvictionResult, EnumerationError>),
    /// The plain listing ended: with the inventory, or with its error.
    ObjectsListed(Result<Vec<DeletionTarget>, EnumerationError>),
    /// The deletion calls of the plain pass have all completed.
    ObjectsEvicted(EvictionResult),
    /// One listing call after the plain pass reported this object count, or
    /// failed.
    ResidualCounted(Result<i32, EnumerationError>),
    /// The call that removes the bucket came back.
    BucketRemoved(Result<(), BucketDeletionFailed>),
}

impl View for Event {
    type V = EventView;

    open spec fn view(&self) -> EventView {
        match self {
            Event::VersioningDetected(detected) => EventView::VersioningDetected(*detected),
            Event::SuspendAttempted { suspended } => EventView::SuspendAttempted {
                suspended: *suspended,
            },
            Event::VersionsEvicted(result) => EventView::VersionsEvicted(
                match result {
                    Ok(totals) => Ok(*totals),
                    Err(error) => Err(error@),
                },
            ),
            Event::ObjectsListed(result) => EventView::ObjectsListed(
                match result {
                    Ok(inventory) => Ok(inventory_view(inventory@)),
                    Err(error) => Err(error@),
                },
            ),
            Event::ObjectsEvicted(totals) => EventView::ObjectsEvicted(*totals),
            Event::ResidualCounted(result) => EventView::ResidualCounted(
                match result {
                    Ok(count) => Ok(*count),
                    Err(error) => Err(error@),
                },
            ),
            Event::BucketRemoved(result) => EventView::BucketRemoved(
                match result {
                    Ok(_) => Ok(()),
                    Err(failure) => Err(failure@),
                },
            ),
        }
    }
}

/// What the orchestrator asks for.
pub enum ActionView {
    DetectVersioning,
    SuspendVersioning,
    EvictVersions,
    ListObjects,
    EvictObjects(Seq<TargetView>),
    CountResidual,
    RemoveBucket,
    Finish(Result<(), ErrorView>),
    Await,
}

/// What the orchestrator asks its driver to do.
pub enum Action {
    /// Look up the versioning state of the bucket.
    DetectVersioning,
    /// Ask the service to suspend versioning. A failure of this request is
    /// logged and reported like a success: it halts nothing.
    SuspendVersioning,
    /// Run the eviction pass over versions and delete markers.
    EvictVersions,
    /// Enumerate the objects of the bucket through the plain listing.
    ListObjects,
    /// Run the deletion calls for this inventory.
    EvictObjects(Vec<DeletionTarget>),
    /// List the bucket once more and report the object count.
    CountResidual,
    /// Remove the bucket.
    RemoveBucket,
    /// The deletion has ended: the bucket is gone, or this is why not.
    Finish(Result<(), EvictionError>),
    /// The report was not what the orchestrator waits for: go on with the
    /// request made before.
    Await,
}

impl View for Action {
    type V = ActionView;

    open spec fn view(&self) -> ActionView {
        match self {
            Action::DetectVersioning => ActionView::DetectVersioning,
            Action::SuspendVersioning => ActionView::SuspendVersioning,
            Action::EvictVersions => ActionView::EvictVersions,
            Action::ListObjects => ActionView::ListObjects,
            Action::EvictObjects(inventory) => ActionView::EvictObjects(
                inventory_view(inventory@),
            ),
            Action::CountResidual => ActionView::CountResidual,
            Action::RemoveBucket => ActionView::RemoveBucket,
            Action::Finish(result) => ActionView::Finish(
                match result {
                    Ok(_) => Ok(()),
                    Err(error) => Err(error@),
                },
            ),
            Action::Await => ActionView::Await,
        }
    }
}

/// The progress lines of a transition and what it asks for.
pub struct DirectiveView {
    pub lines: Seq<ProgressLine>,
    pub action: ActionView,
}

/// What one transition hands to the driver: the progress lines to write, in
/// order, and the request to carry out.
pub struct Directive {
    pub lines: Vec<ProgressLine>,
    pub action: Action,
}

impl View for Directive {
    type V = DirectiveView;

    open spec fn view(&self) -> DirectiveView {
        DirectiveView { lines: self.lines@, action: self.action@ }
    }
}

/// A transition that halts the deletion for `error`.
pub open spec fn halt(error: ErrorView) -> (StageView, DirectiveView) {
    (
        StageView::Halted(error),
        DirectiveView { lines: Seq::empty(), action: ActionView::Finish(Err(error)) },
    )
}

/// A transition that writes `lines` and goes on to `stage` with `action`.
pub open spec fn proceed(stage: StageView, lines: Seq<ProgressLine>, action: ActionView) -> (
    StageView,
    DirectiveView,
) {
    (stage, DirectiveView { lines, action })
}

/// The first directive: the line that announces the look at versioning, and
/// the request to detect it.
pub open spec fn first_directive() -> DirectiveView {
    DirectiveView {
        lines: seq![ProgressLine::DisablingVersioning],
        action: ActionView::DetectVersioning,
    }
}

/// The transition of the orchestrator.
///
/// * Checking versioning: a bucket whose versioning is enabled has it
///   suspended and is emptied version by version; any other bucket is
///   emptied through the plain listing.
/// * Suspending versioning: whatever came of the attempt, the pass over
///   versions and delete markers follows.
/// * Evicting versions: a listing error halts. So do totals with a failed
///   target: the pass was incomplete. Totals without one lead to the
///   removal of the bucket, with no look at what is left.
/// * Enumerating plain objects: a listing error halts; an inventory is
///   handed to the deletion calls.
/// * Evicting plain objects: whatever the totals, the bucket is listed once
///   more.
/// * Verifying emptiness: a failed listing call halts, and so does any
///   object count but zero; zero leads to the removal of the bucket.
/// * Removing the bucket: success ends the deletion; a failure halts.
/// * After the end, whatever is reported, the result is repeated.
/// * A report that the stage does not wait for changes nothing.
pub open spec fn transition(stage: StageView, event: EventView) -> (StageView, DirectiveView) {
    match (stage, event) {
        (StageView::CheckVersioning, EventView::VersioningDetected(detected)) => {
            if detected == Some(VersioningState::Enabled) {
                proceed(StageView::SuspendVersioning, Seq::empty(), ActionView::SuspendVersioning)
            } else {
                proceed(
                    StageView::EnumeratePlain,
                    seq![ProgressLine::CollectingObjects],
                    ActionView::ListObjects,
                )
            }
        },
        (StageView::SuspendVersioning, EventView::SuspendAttempted { .. }) => proceed(
            StageView::EvictVersions,
            seq![ProgressLine::DeletingVersions],
            ActionView::EvictVersions,
        ),
        (StageView::EvictVersions, EventView::VersionsEvicted(Err(failure))) => halt(
            ErrorView::Enumeration(failure),
        ),
        (StageView::EvictVersions, EventView::VersionsEvicted(Ok(totals))) => {
            let line = ProgressLine::DeletedVersions {
                successful: totals.successful_count,
                failed: totals.failed_count,
            };
            if totals.failed_count > 0 {
                let error = ErrorView::VersionedEvictionIncomplete {
                    failed_count: totals.failed_count,
                };
                proceed(StageView::Halted(error), seq![line], ActionView::Finish(Err(error)))
            } else {
                proceed(
                    StageView::DeleteBucket,
                    seq![line, ProgressLine::DeletingBucket],
                    ActionView::RemoveBucket,
                )
            }
        },
        (StageView::EnumeratePlain, EventView::ObjectsListed(Err(failure))) => halt(
            ErrorView::Enumeration(failure),
        ),
        (StageView::EnumeratePlain, EventView::ObjectsListed(Ok(inventory))) => proceed(
            StageView::EvictPlain { count: inventory.len() as usize },
            seq![ProgressLine::DeletingObjects { count: inventory.len() as usize }],
            ActionView::EvictObjects(inventory),
        ),
        (StageView::EvictPlain { count }, EventView::ObjectsEvicted(_)) => proceed(
            StageView::VerifyEmpty { count },
            Seq::empty(),
            ActionView::CountResidual,
        ),
        (StageView::VerifyEmpty { .. }, EventView::ResidualCounted(Err(failure))) => halt(
            ErrorView::Enumeration(failure),
        ),
        (StageView::VerifyEmpty { count }, EventView::ResidualCounted(Ok(reported))) => {
            if reported != 0 {
                halt(ErrorView::BucketNotEmpty(ResidualObjects { count: reported }))
            } else {
                proceed(
                    StageView::DeleteBucket,
                    seq![ProgressLine::DeletedObjects { count }, ProgressLine::DeletingBucket],
                    ActionView::RemoveBucket,
                )
            }
        },
        (StageView::DeleteBucket, EventView::BucketRemoved(Ok(_))) => proceed(
            StageView::Done,
            seq![ProgressLine::BucketDeleted],
            ActionView::Finish(Ok(())),
        ),
        (StageView::DeleteBucket, EventView::BucketRemoved(Err(failure))) => halt(
            ErrorView::BucketDeletionFailed(failure),
        ),
        (StageView::Done, _) => proceed(StageView::Done, Seq::empty(), ActionView::Finish(Ok(()))),
        (StageView::Halted(error), _) => halt(error),
        _ => proceed(stage, Seq::empty(), ActionView::Await),
    }
}

/// Suspension of versioning is asked for if and only if the bucket reports,
/// at the check of its versioning, that versioning is enabled.
pub proof fn lemma_suspend_iff_enabled(stage: StageView, event: EventView)
    ensures
        transition(stage, event).1.action is SuspendVersioning <==> stage is CheckVersioning
            && event == EventView::VersioningDetected(Some(VersioningState::Enabled)),
{
}

/// The removal of the bucket is asked for only after a pass over versions
/// and delete markers that failed for no target, or after the bucket was
/// found empty.
pub proof fn lemma_removal_guarded(stage: StageView, event: EventView)
    requires
        transition(stage, event).1.action is RemoveBucket,
    ensures
        transition(stage, event).0 is DeleteBucket,
        (stage is EvictVersions && event is VersionsEvicted && event->VersionsEvicted_0 is Ok
            && event->VersionsEvicted_0->Ok_0.failed_count == 0) || (stage is VerifyEmpty && event
            == EventView::ResidualCounted(Ok(0))),
{
}

/// Deletion calls are asked for only on an inventory that the plain listing
/// ended with, and for exactly that inventory. After a listing error
/// nothing is asked for but to finish with that error, and no line is
/// written.
pub proof fn lemma_eviction_follows_listing(stage: StageView, event: EventView)
    ensures
        transition(stage, event).1.action matches ActionView::EvictObjects(inventory) ==> stage
            is EnumeratePlain && event == EventView::ObjectsListed(Ok(inventory)),
        event matches EventView::ObjectsListed(Err(failure)) ==> (stage is EnumeratePlain
            ==> transition(stage, event) == halt(ErrorView::Enumeration(failure))),
        event matches EventView::VersionsEvicted(Err(failure)) ==> (stage is EvictVersions
            ==> transition(stage, event) == halt(ErrorView::Enumeration(failure))),
{
}

/// The end is final: once the deletion is done or has halted, no report
/// changes the stage, writes a line, or asks for anything but to finish
/// with the same result.
pub proof fn lemma_end_is_final(stage: StageView, event: EventView)
    requires
        stage is Done || stage is Halted,
    ensures
        transition(stage, event).0 == stage,
        transition(stage, event).1.lines == Seq::<ProgressLine>::empty(),
        transition(stage, event).1.action == ActionView::Finish(
            match stage {
                StageView::Halted(error) => Err(error),
                _ => Ok(()),
            },
        ),
{
}

enum Stage {
    CheckVersioning,
    SuspendVersioning,
    EvictVersions,
    EnumeratePlain,
    EvictPlain { count: usize },
    VerifyEmpty { count: usize },
    DeleteBucket,
    Done,
    Halted(EvictionError),
}

/// The deletion of one bucket under way.
pub struct BucketDeletion {
    stage: Stage,
}

impl View for BucketDeletion {
    type V = StageView;

    closed spec fn view(&self) -> StageView {
        match self.stage {
            Stage::CheckVersioning => StageView::CheckVersioning,
            Stage::SuspendVersioning => StageView::SuspendVersioning,
            Stage::EvictVersions => StageView::EvictVersions,
            Stage::EnumeratePlain => StageView::EnumeratePlain,
            Stage::EvictPlain { count } => StageView::EvictPlain { count },
            Stage::VerifyEmpty { count } => StageView::VerifyEmpty { count },
            Stage::DeleteBucket => StageView::DeleteBucket,
            Stage::Done => StageView::Done,
            Stage::Halted(error) => StageView::Halted(error@),
        }
    }
}

/// The directive that writes no line and asks for `action`.
fn silent(action: Action) -> (directive: Directive)
    ensures
        directive@ == (DirectiveView { lines: Seq::empty(), action: action@ }),
{
    Directive { lines: Vec::new(), action }
}

/// The directive that writes `line` and asks for `action`.
fn announce(line: ProgressLine, action: Action) -> (directive: Directive)
    ensures
        directive@ == (DirectiveView { lines: seq![line], action: action@ }),
{
    let mut lines: Vec<ProgressLine> = Vec::new();
    lines.push(line);
    assert(lines@ =~= seq![line]);
    Directive { lines, action }
}

/// The directive that writes `first`, then `second`, and asks for `action`.
fn announce_both(first: ProgressLine, second: ProgressLine, action: Action) -> (directive:
    Directive)
    ensures
        directive@ == (DirectiveView { lines: seq![first, second], action: action@ }),
{
    let mut lines: Vec<ProgressLine> = Vec::new();
    lines.push(first);
    lines.push(second);
    assert(lines@ =~= seq![first, second]);
    Directive { lines, action }
}

/// The halted state for `error` and the directive that finishes with it.
fn halted(error: EvictionError) -> (r: (BucketDeletion, Directive))
    ensures
        (r.0@, r.1@) == halt(error@),
{
    let copy = error.duplicate();
    (BucketDeletion { stage: Stage::Halted(error) }, silent(Action::Finish(Err(copy))))
}

impl BucketDeletion {
    /// The deletion of a bucket at its first stage, with the first
    /// directive.
    pub fn begin() -> (r: (BucketDeletion, Directive))
        ensures
            r.0@ == StageView::CheckVersioning,
            r.1@ == first_directive(),
    {
        (
            BucketDeletion { stage: Stage::CheckVersioning },
            announce(ProgressLine::DisablingVersioning, Action::DetectVersioning),
        )
    }

    /// Whether the deletion has ended, done or halted.
    pub fn is_over(&self) -> (over: bool)
        ensures
            over == (self@ is Done || self@ is Halted),
    {
        match &self.stage {
            Stage::Done => true,
            Stage::Halted(_) => true,
            _ => false,
        }
    }
}

/// Advances the deletion of a bucket by one report of its driver, and says
/// which progress lines to write and what to do next.
pub fn delete_bucket(deletion: BucketDeletion, event: Event) -> (r: (BucketDeletion, Directive))
    ensures
        (r.0@, r.1@) == transition(deletion@, event@),
{
    match (deletion.stage, event) {
        (Stage::CheckVersioning, Event::VersioningDetected(detected)) => {
            if disable_versioning(detected) {
                (
                    BucketDeletion { stage: Stage::SuspendVersioning },
                    silent(Action::SuspendVersioning),
                )
            } else {
                (
                    BucketDeletion { stage: Stage::EnumeratePlain },
                    announce(ProgressLine::CollectingObjects, Action::ListObjects),
                )
            }
        },
        (Stage::SuspendVersioning, Event::SuspendAttempted { .. }) => (
            BucketDeletion { stage: Stage::EvictVersions },
            announce(ProgressLine::DeletingVersions, Action::EvictVersions),
        ),
        (Stage::EvictVersions, Event::VersionsEvicted(Err(error))) => halted(
            EvictionError::Enumeration(error),
        ),
        (Stage::EvictVersions, Event::VersionsEvicted(Ok(totals))) => {
            let line = ProgressLine::DeletedVersions {
                successful: totals.successful_count,
                failed: totals.failed_count,
            };
            if totals.failed_count > 0 {
                let error = EvictionError::VersionedEvictionIncomplete {
                    failed_count: totals.failed_count,
                };
                let copy = error.duplicate();
                (
                    BucketDeletion { stage: Stage::Halted(error) },
                    announce(line, Action::Finish(Err(copy))),
                )
            } else {
                (
                    BucketDeletion { stage: Stage::DeleteBucket },
                    announce_both(line, ProgressLine::DeletingBucket, Action::RemoveBucket),
                )
            }
        },
        (Stage::EnumeratePlain, Event::ObjectsListed(Err(error))) => halted(
            EvictionError::Enumeration(error),
        ),
        (Stage::EnumeratePlain, Event::ObjectsListed(Ok(inventory))) => {
            let count = inventory.len();
            (
                BucketDeletion { stage: Stage::EvictPlain { count } },
                announce(ProgressLine::DeletingObjects { count }, Action::EvictObjects(inventory)),
            )
        },
        (Stage::EvictPlain { count }, Event::ObjectsEvicted(_)) => (
            BucketDeletion { stage: Stage::VerifyEmpty { count } },
            silent(Action::CountResidual),
        ),
        (Stage::VerifyEmpty { .. }, Event::ResidualCounted(Err(error))) => halted(
            EvictionError::Enumeration(error),
        ),
        (Stage::VerifyEmpty { count }, Event::ResidualCounted(Ok(reported))) => {
            match verify_empty(reported) {
                Err(residual) => halted(EvictionError::BucketNotEmpty(residual)),
                Ok(_) => (
                    BucketDeletion { stage: Stage::DeleteBucket },
                    announce_both(
                        ProgressLine::DeletedObjects { count },
                        ProgressLine::DeletingBucket,
                        Action::RemoveBucket,
                    ),
                ),
            }
        },
        (Stage::DeleteBucket, Event::BucketRemoved(Ok(_))) => (
            BucketDeletion { stage: Stage::Done },
            announce(ProgressLine::BucketDeleted, Action::Finish(Ok(()))),
        ),
        (Stage::DeleteBucket, Event::BucketRemoved(Err(failure))) => halted(
            EvictionError::BucketDeletionFailed(failure),
        ),
        (Stage::Done, _) => (BucketDeletion { stage: Stage::Done }, silent(Action::Finish(Ok(())))),
        (Stage::Halted(error), _) => halted(error),
        (stage, _) => (BucketDeletion { stage }, silent(Action::Await)),
    }
}

} // verus!
