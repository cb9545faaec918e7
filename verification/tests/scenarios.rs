use delete_bucket::enumerate::{
    object_page, version_page, EnumerationError, Enumerator, ListingMode, ListingPage,
    ListingStep, PageCursor, VersionRecord,
};
use delete_bucket::orchestrator::{
    delete_bucket, Action, BucketDeletion, BucketDeletionFailed, Event, EvictionError,
    ProgressLine,
};
use delete_bucket::outcome::{BatchOutcome, EvictionResult};
use delete_bucket::plan::DeletionTask;
use delete_bucket::residual::ResidualObjects;
use delete_bucket::scheduler::{Dispatch, Scheduler, DEFAULT_CONCURRENCY};
use delete_bucket::target::DeletionTarget;
use delete_bucket::versioning::VersioningState;
use delete_bucket::versions::{delete_versioned_objects, PassAction, PassEvent, VersionPass};

/// A storage service of one bucket, held in memory, that counts the calls
/// made to it.
struct Service {
    exists: bool,
    versioning: VersioningState,
    suspend_fails: bool,
    /// Current objects, as the plain listing shows them.
    objects: Vec<String>,
    /// Versions and delete markers: key, version identifier, whether it is a
    /// delete marker.
    versions: Vec<(String, String, bool)>,
    page_size: usize,
    /// Keys that no deletion call can delete.
    stuck: Vec<String>,
    removal_code: Option<String>,
    removed: bool,
    versioning_calls: usize,
    suspend_calls: usize,
    list_objects_calls: usize,
    list_versions_calls: usize,
    delete_object_calls: usize,
    batch_sizes: Vec<usize>,
    remove_calls: usize,
    tokens: usize,
    running: usize,
    most_running: usize,
}

impl Service {
    fn new(versioning: VersioningState) -> Service {
        Service {
            exists: true,
            versioning,
            suspend_fails: false,
            objects: Vec::new(),
            versions: Vec::new(),
            page_size: 1000,
            stuck: Vec::new(),
            removal_code: None,
            removed: false,
            versioning_calls: 0,
            suspend_calls: 0,
            list_objects_calls: 0,
            list_versions_calls: 0,
            delete_object_calls: 0,
            batch_sizes: Vec::new(),
            remove_calls: 0,
            tokens: 0,
            running: 0,
            most_running: 0,
        }
    }

    fn missing() -> Service {
        let mut service = Service::new(VersioningState::Unset);
        service.exists = false;
        service
    }

    fn with_objects(mut self, count: usize) -> Service {
        self.objects = (0..count).map(|i| format!("object-{:05}", i)).collect();
        self
    }

    fn no_such_bucket() -> EnumerationError {
        EnumerationError { code: Some("NoSuchBucket".to_string()) }
    }

    fn get_versioning(&mut self) -> Option<VersioningState> {
        self.versioning_calls += 1;
        if self.exists {
            Some(self.versioning)
        } else {
            None
        }
    }

    fn suspend_versioning(&mut self) -> bool {
        self.suspend_calls += 1;
        if self.suspend_fails {
            false
        } else {
            self.versioning = VersioningState::Suspended;
            true
        }
    }

    fn list_objects(&mut self, cursor: &PageCursor) -> Result<ListingPage, EnumerationError> {
        self.list_objects_calls += 1;
        if !self.exists {
            return Err(Service::no_such_bucket());
        }
        let start = match &cursor.key_marker {
            Some(marker) => self.objects.iter().filter(|key| *key <= marker).count(),
            None => 0,
        };
        let end = (start + self.page_size).min(self.objects.len());
        let keys: Vec<String> = self.objects[start..end].to_vec();
        let truncated = end < self.objects.len();
        let token = if truncated { keys.last().cloned() } else { None };
        Ok(object_page(keys, truncated, token))
    }

    fn list_versions(&mut self, cursor: &PageCursor) -> Result<ListingPage, EnumerationError> {
        self.list_versions_calls += 1;
        if !self.exists {
            return Err(Service::no_such_bucket());
        }
        let start = match (&cursor.key_marker, &cursor.version_id_marker) {
            (Some(key), Some(version)) => {
                1 + self
                    .versions
                    .iter()
                    .position(|(k, v, _)| k == key && v == version)
                    .expect("a marker that the service handed out")
            }
            _ => 0,
        };
        let end = (start + self.page_size).min(self.versions.len());
        let mut versions = Vec::new();
        let mut markers = Vec::new();
        for (key, version, is_marker) in &self.versions[start..end] {
            let record =
                VersionRecord { key: Some(key.clone()), version_id: Some(version.clone()) };
            if *is_marker {
                markers.push(record);
            } else {
                versions.push(record);
            }
        }
        let truncated = end < self.versions.len();
        let (next_key, next_version) = if truncated {
            let last = &self.versions[end - 1];
            (Some(last.0.clone()), Some(last.1.clone()))
        } else {
            (None, None)
        };
        Ok(version_page(versions, markers, truncated, next_key, next_version))
    }

    fn start_call(&mut self) {
        self.running += 1;
        self.most_running = self.most_running.max(self.running);
    }

    fn end_call(&mut self) {
        self.running -= 1;
    }

    fn delete(&mut self, task: &DeletionTask) -> BatchOutcome {
        match task {
            DeletionTask::Single { key, version_id } => {
                self.delete_object_calls += 1;
                if self.stuck.contains(key) {
                    BatchOutcome::of_single(false)
                } else {
                    self.versions.retain(|(k, v, _)| !(k == key && v == version_id));
                    BatchOutcome::of_single(true)
                }
            }
            DeletionTask::Batch { keys } => {
                self.batch_sizes.push(keys.len());
                let mut failed_keys = Vec::new();
                for key in keys {
                    if self.stuck.contains(key) {
                        failed_keys.push(key.clone());
                    } else {
                        self.objects.retain(|k| k != key);
                    }
                }
                BatchOutcome::Completed { failed_keys }
            }
        }
    }

    fn count_objects(&mut self) -> Result<i32, EnumerationError> {
        self.list_objects_calls += 1;
        if !self.exists {
            return Err(Service::no_such_bucket());
        }
        Ok(self.objects.len().min(self.page_size) as i32)
    }

    fn remove_bucket(&mut self) -> Result<(), BucketDeletionFailed> {
        self.remove_calls += 1;
        match &self.removal_code {
            Some(code) => Err(BucketDeletionFailed { code: Some(code.clone()) }),
            None => {
                self.removed = true;
                Ok(())
            }
        }
    }

    fn deletion_calls(&self) -> usize {
        self.delete_object_calls + self.batch_sizes.len()
    }
}

fn enumerate_objects(service: &mut Service) -> Result<Vec<DeletionTarget>, EnumerationError> {
    let mut enumerator = Enumerator::new(ListingMode::PlainObjects);
    loop {
        let reply = service.list_objects(enumerator.cursor());
        match enumerator.accept(reply) {
            ListingStep::Continue(next) => enumerator = next,
            ListingStep::Complete(inventory) => return Ok(inventory),
            ListingStep::Failed(error) => return Err(error),
        }
    }
}

fn evict_objects(service: &mut Service, inventory: Vec<DeletionTarget>) -> EvictionResult {
    let mut scheduler = Scheduler::new(inventory, DEFAULT_CONCURRENCY).unwrap();
    let mut running: Vec<(usize, BatchOutcome)> = Vec::new();
    loop {
        let (next, dispatch) = scheduler.next();
        scheduler = next;
        match dispatch {
            Dispatch::AcquireToken => {
                service.tokens += 1;
                scheduler = scheduler.grant();
            }
            Dispatch::Start { index } => {
                service.start_call();
                let outcome = service.delete(scheduler.task(index).unwrap());
                running.push((index, outcome));
            }
            Dispatch::Wait => {
                let (index, outcome) = running.pop().unwrap();
                service.end_call();
                let (next, counted) = scheduler.complete(index, &outcome);
                assert!(counted);
                scheduler = next;
            }
            Dispatch::Finished(result) => return result,
        }
    }
}

fn evict_versions(service: &mut Service) -> Result<EvictionResult, EnumerationError> {
    let (mut pass, mut action) = VersionPass::begin(DEFAULT_CONCURRENCY).unwrap();
    let mut running: Vec<(usize, BatchOutcome)> = Vec::new();
    loop {
        let event = match action {
            PassAction::List(cursor) => PassEvent::Listed(service.list_versions(&cursor)),
            PassAction::AcquireToken => {
                service.tokens += 1;
                PassEvent::TokenGranted
            }
            PassAction::Start { index } => {
                service.start_call();
                let outcome = service.delete(pass.task(index).unwrap());
                running.push((index, outcome));
                PassEvent::Ready
            }
            PassAction::Wait => {
                let (index, outcome) = running.remove(0);
                service.end_call();
                PassEvent::Completed { index, outcome }
            }
            PassAction::Finish(result) => {
                assert!(running.is_empty());
                return result;
            }
        };
        let (next, asked) = delete_versioned_objects(pass, event);
        pass = next;
        action = asked;
    }
}

/// Drives the deletion of the service's bucket to its end. Returns the
/// result and the progress lines written.
fn run(service: &mut Service, bucket: &str) -> (Result<(), EvictionError>, Vec<String>) {
    let mut lines = Vec::new();
    let (mut deletion, mut directive) = BucketDeletion::begin();
    loop {
        for line in &directive.lines {
            lines.push(line.text(bucket));
        }
        let event = match directive.action {
            Action::DetectVersioning => Event::VersioningDetected(service.get_versioning()),
            Action::SuspendVersioning => {
                Event::SuspendAttempted { suspended: service.suspend_versioning() }
            }
            Action::EvictVersions => Event::VersionsEvicted(evict_versions(service)),
            Action::ListObjects => Event::ObjectsListed(enumerate_objects(service)),
            Action::EvictObjects(inventory) => {
                Event::ObjectsEvicted(evict_objects(service, inventory))
            }
            Action::CountResidual => Event::ResidualCounted(service.count_objects()),
            Action::RemoveBucket => Event::BucketRemoved(service.remove_bucket()),
            Action::Finish(result) => {
                assert!(deletion.is_over());
                return (result, lines);
            }
            Action::Await => panic!("the driver reported what was asked for"),
        };
        let (next, asked) = delete_bucket(deletion, event);
        deletion = next;
        directive = asked;
    }
}

fn versioned_service() -> Service {
    let mut service = Service::new(VersioningState::Enabled);
    service.versions = vec![
        ("a".to_string(), "a2".to_string(), false),
        ("a".to_string(), "a1".to_string(), false),
        ("b".to_string(), "b-marker".to_string(), true),
        ("b".to_string(), "b2".to_string(), false),
        ("b".to_string(), "b1".to_string(), false),
    ];
    service
}

#[test]
fn three_plain_objects_are_deleted_with_one_batch_and_the_bucket_is_removed() {
    let mut service = Service::new(VersioningState::Unset).with_objects(3);
    let (result, lines) = run(&mut service, "plain-bucket");
    assert!(result.is_ok());
    assert_eq!(service.suspend_calls, 0);
    assert_eq!(service.batch_sizes, vec![3]);
    assert_eq!(service.tokens, 1);
    assert_eq!(service.delete_object_calls, 0);
    assert_eq!(service.list_versions_calls, 0);
    // One listing to enumerate, one to verify that nothing is left.
    assert_eq!(service.list_objects_calls, 2);
    assert_eq!(service.remove_calls, 1);
    assert!(service.removed);
    assert!(service.objects.is_empty());
    assert_eq!(
        lines,
        vec![
            "Disabling Bucket Versioning if enabled",
            "Collecting objects to delete",
            "Deleting 3 objects ...",
            "Successfully deleted 3 objects.",
            "Deleting the bucket plain-bucket.",
            "Bucket plain-bucket deleted successfully.",
        ]
    );
}

#[test]
fn a_versioned_bucket_is_suspended_once_and_emptied_version_by_version() {
    let mut service = versioned_service();
    let (result, lines) = run(&mut service, "versioned-bucket");
    assert!(result.is_ok());
    assert_eq!(service.suspend_calls, 1);
    assert_eq!(service.delete_object_calls, 5);
    assert_eq!(service.tokens, 5);
    assert!(service.batch_sizes.is_empty());
    // No look at what is left: the plain listing is never called.
    assert_eq!(service.list_objects_calls, 0);
    assert_eq!(service.list_versions_calls, 1);
    assert!(service.versions.is_empty());
    assert!(service.removed);
    assert!(service.most_running <= DEFAULT_CONCURRENCY);
    assert_eq!(
        lines,
        vec![
            "Disabling Bucket Versioning if enabled",
            "Deleting object versions ...",
            "Successfully deleted 5 object versions. ",
            "Deleting the bucket versioned-bucket.",
            "Bucket versioned-bucket deleted successfully.",
        ]
    );
}

#[test]
fn a_failed_suspension_halts_nothing() {
    let mut service = versioned_service();
    service.suspend_fails = true;
    let (result, _) = run(&mut service, "b");
    assert!(result.is_ok());
    assert_eq!(service.suspend_calls, 1);
    assert_eq!(service.delete_object_calls, 5);
    assert!(service.removed);
}

#[test]
fn suspension_is_never_asked_for_unless_versioning_is_enabled() {
    for state in [VersioningState::Suspended, VersioningState::Unset] {
        let mut service = Service::new(state).with_objects(2);
        let (result, _) = run(&mut service, "b");
        assert!(result.is_ok());
        assert_eq!(service.suspend_calls, 0);
        assert_eq!(service.list_versions_calls, 0);
        assert_eq!(service.batch_sizes, vec![2]);
    }
}

#[test]
fn residual_objects_after_a_partial_failure_halt_before_the_removal() {
    let mut service = Service::new(VersioningState::Unset).with_objects(1200);
    service.stuck = vec![
        "object-00003".to_string(),
        "object-00500".to_string(),
        "object-00999".to_string(),
    ];
    let (result, lines) = run(&mut service, "big-bucket");
    match result {
        Err(EvictionError::BucketNotEmpty(residual)) => {
            assert_eq!(residual, ResidualObjects { count: 3 });
        }
        other => panic!("expected residual objects, got {:?}", other),
    }
    assert_eq!(service.batch_sizes, vec![1000, 200]);
    assert_eq!(service.tokens, 2);
    assert_eq!(service.remove_calls, 0);
    assert!(!service.removed);
    assert_eq!(service.objects.len(), 3);
    assert!(service.most_running <= DEFAULT_CONCURRENCY);
    assert_eq!(
        lines,
        vec![
            "Disabling Bucket Versioning if enabled",
            "Collecting objects to delete",
            "Deleting 1200 objects ...",
        ]
    );
}

#[test]
fn a_missing_bucket_fails_at_the_listing_and_nothing_is_deleted() {
    let mut service = Service::missing();
    let (result, lines) = run(&mut service, "gone");
    match result {
        Err(EvictionError::Enumeration(error)) => {
            assert_eq!(error.code, Some("NoSuchBucket".to_string()));
        }
        other => panic!("expected a listing error, got {:?}", other),
    }
    assert_eq!(service.list_objects_calls, 1);
    assert_eq!(service.deletion_calls(), 0);
    assert_eq!(service.tokens, 0);
    assert_eq!(service.suspend_calls, 0);
    assert_eq!(service.remove_calls, 0);
    assert_eq!(
        lines,
        vec!["Disabling Bucket Versioning if enabled", "Collecting objects to delete"]
    );
}

#[test]
fn happy_flow() {
    // Two buckets, each with versioning enabled, one key with two versions
    // and one key with a version under a delete marker.
    let mut output = String::new();
    for name in ["delete-bucket-it-abc1234", "delete-bucket2-it-abc1234"] {
        let mut service = Service::new(VersioningState::Enabled);
        service.versions = vec![
            ("your-object-key".to_string(), "v2".to_string(), false),
            ("your-object-key".to_string(), "v1".to_string(), false),
            ("your-object-key-delete".to_string(), "marker".to_string(), true),
            ("your-object-key-delete".to_string(), "v1".to_string(), false),
        ];
        let (result, lines) = run(&mut service, name);
        assert!(result.is_ok());
        for line in lines {
            output.push_str(&line);
            output.push('\n');
        }
        let left = service.count_objects();
        if let Ok(key_count) = left {
            assert!(key_count == 0)
        }
        assert!(service.versions.is_empty());
        assert!(service.removed);
    }
    assert!(output.contains("deleted successfully."));
    assert_eq!(output.matches("deleted successfully.").count(), 2);
}

#[test]
fn bucket_missing_show_error() {
    let mut service = Service::missing();
    let (result, _) = run(&mut service, "bucket-is-missing.test.me");
    let error = result.expect_err("the bucket is missing");
    let shown = format!("Error deleting bucket: {}", error.message());
    assert!(shown.contains("NoSuchBucket"));
}

#[test]
fn a_version_that_cannot_be_deleted_halts_before_the_removal() {
    let mut service = versioned_service();
    service.stuck = vec!["b".to_string()];
    let (result, lines) = run(&mut service, "b");
    match result {
        Err(EvictionError::VersionedEvictionIncomplete { failed_count }) => {
            assert_eq!(failed_count, 3);
        }
        other => panic!("expected an incomplete pass, got {:?}", other),
    }
    // Failures stop no sibling call: all five were made.
    assert_eq!(service.delete_object_calls, 5);
    assert_eq!(service.remove_calls, 0);
    assert_eq!(
        lines,
        vec![
            "Disabling Bucket Versioning if enabled",
            "Deleting object versions ...",
            "Successfully deleted 2 object versions. Failed deleting 3 versioned objects",
        ]
    );
}

#[test]
fn a_failed_removal_is_reported_with_its_code() {
    let mut service = Service::new(VersioningState::Unset).with_objects(1);
    service.removal_code = Some("AccessDenied".to_string());
    let (result, lines) = run(&mut service, "b");
    match result {
        Err(EvictionError::BucketDeletionFailed(failure)) => {
            assert_eq!(failure.code, Some("AccessDenied".to_string()));
        }
        other => panic!("expected a failed removal, got {:?}", other),
    }
    assert_eq!(service.remove_calls, 1);
    assert_eq!(lines.last().unwrap(), "Deleting the bucket b.");
}

#[test]
fn an_empty_bucket_is_removed_without_a_deletion_call() {
    let mut service = Service::new(VersioningState::Unset);
    let (result, lines) = run(&mut service, "empty");
    assert!(result.is_ok());
    assert_eq!(service.deletion_calls(), 0);
    assert!(service.removed);
    assert!(lines.contains(&"Deleting 0 objects ...".to_string()));
    let mut versioned = Service::new(VersioningState::Enabled);
    let (result, lines) = run(&mut versioned, "empty");
    assert!(result.is_ok());
    assert_eq!(versioned.deletion_calls(), 0);
    assert!(lines.contains(&"Successfully deleted 0 object versions. ".to_string()));
}

#[test]
fn version_listing_goes_page_by_page() {
    let mut service = Service::new(VersioningState::Enabled);
    service.page_size = 2;
    service.versions =
        (0..7).map(|i| (format!("k{}", i / 2), format!("v{}", i), i % 3 == 0)).collect();
    let result = evict_versions(&mut service);
    assert_eq!(result.unwrap(), EvictionResult { successful_count: 7, failed_count: 0 });
    assert_eq!(service.list_versions_calls, 4);
    assert_eq!(service.delete_object_calls, 7);
    assert_eq!(service.tokens, 7);
    assert!(service.most_running <= DEFAULT_CONCURRENCY);
}

#[test]
fn plain_listing_goes_page_by_page() {
    let mut service = Service::new(VersioningState::Unset).with_objects(25);
    service.page_size = 10;
    let inventory = enumerate_objects(&mut service).unwrap();
    assert_eq!(inventory.len(), 25);
    assert_eq!(service.list_objects_calls, 3);
}

#[test]
fn the_version_pass_ends_with_the_listing_error_before_any_deletion() {
    let mut service = Service::missing();
    let result = evict_versions(&mut service);
    assert_eq!(result.unwrap_err().code, Some("NoSuchBucket".to_string()));
    assert_eq!(service.deletion_calls(), 0);
}

#[test]
fn a_version_pass_needs_a_ceiling() {
    assert!(VersionPass::begin(0).is_none());
    let (pass, action) = VersionPass::begin(1).unwrap();
    assert!(matches!(action, PassAction::List(ref cursor) if cursor.is_absent()));
    assert_eq!(pass.progress(), (0, 0));
    assert!(pass.task(0).is_none());
}

#[test]
fn reports_that_a_version_pass_did_not_ask_for_change_nothing() {
    let (pass, _) = VersionPass::begin(2).unwrap();
    // While listing, a completion is not waited for: the request is repeated.
    let (pass, action) = delete_versioned_objects(
        pass,
        PassEvent::Completed { index: 0, outcome: BatchOutcome::Failed },
    );
    assert!(matches!(action, PassAction::List(ref cursor) if cursor.is_absent()));
    let (pass, action) = delete_versioned_objects(pass, PassEvent::Ready);
    assert!(matches!(action, PassAction::List(_)));
    let page = version_page(
        vec![VersionRecord { key: Some("k".to_string()), version_id: Some("v".to_string()) }],
        Vec::new(),
        false,
        None,
        None,
    );
    let (pass, action) = delete_versioned_objects(pass, PassEvent::Listed(Ok(page)));
    assert!(matches!(action, PassAction::AcquireToken));
    // Without a token the call is not handed out.
    let (pass, action) = delete_versioned_objects(pass, PassEvent::Ready);
    assert!(matches!(action, PassAction::AcquireToken));
    let (pass, action) = delete_versioned_objects(pass, PassEvent::TokenGranted);
    assert!(matches!(action, PassAction::Start { index: 0 }));
    assert_eq!(pass.progress(), (0, 1));
    assert!(matches!(
        pass.task(0),
        Some(DeletionTask::Single { key, version_id }) if key == "k" && version_id == "v"
    ));
    // A completion for a call that does not run is not counted.
    let (pass, action) = delete_versioned_objects(
        pass,
        PassEvent::Completed { index: 5, outcome: BatchOutcome::Failed },
    );
    assert!(matches!(action, PassAction::Wait));
    let (pass, action) = delete_versioned_objects(
        pass,
        PassEvent::Completed { index: 0, outcome: BatchOutcome::of_single(true) },
    );
    let expected = EvictionResult { successful_count: 1, failed_count: 0 };
    assert!(matches!(action, PassAction::Finish(Ok(result)) if result == expected));
    // After the end the result is repeated.
    let (pass, action) = delete_versioned_objects(pass, PassEvent::Ready);
    assert!(matches!(action, PassAction::Finish(Ok(result)) if result == expected));
    assert_eq!(pass.progress(), (0, 0));
}

#[test]
fn reports_that_the_orchestrator_did_not_ask_for_change_nothing() {
    let (deletion, first) = BucketDeletion::begin();
    assert_eq!(first.lines, vec![ProgressLine::DisablingVersioning]);
    assert!(matches!(first.action, Action::DetectVersioning));
    assert!(!deletion.is_over());
    let (deletion, directive) = delete_bucket(deletion, Event::BucketRemoved(Ok(())));
    assert!(directive.lines.is_empty());
    assert!(matches!(directive.action, Action::Await));
    assert!(!deletion.is_over());
    let (deletion, directive) =
        delete_bucket(deletion, Event::VersioningDetected(Some(VersioningState::Suspended)));
    assert_eq!(directive.lines, vec![ProgressLine::CollectingObjects]);
    assert!(matches!(directive.action, Action::ListObjects));
    let (_, directive) = delete_bucket(
        deletion,
        Event::ObjectsEvicted(EvictionResult { successful_count: 0, failed_count: 0 }),
    );
    assert!(matches!(directive.action, Action::Await));
}

#[test]
fn the_end_is_final() {
    let (deletion, _) = BucketDeletion::begin();
    let (deletion, _) = delete_bucket(deletion, Event::VersioningDetected(None));
    let (deletion, directive) = delete_bucket(
        deletion,
        Event::ObjectsListed(Err(EnumerationError { code: Some("AccessDenied".to_string()) })),
    );
    assert!(deletion.is_over());
    assert!(directive.lines.is_empty());
    assert!(matches!(
        directive.action,
        Action::Finish(Err(EvictionError::Enumeration(ref error)))
            if error.code == Some("AccessDenied".to_string())
    ));
    let (deletion, directive) = delete_bucket(deletion, Event::BucketRemoved(Ok(())));
    assert!(deletion.is_over());
    assert!(directive.lines.is_empty());
    assert!(matches!(
        directive.action,
        Action::Finish(Err(EvictionError::Enumeration(ref error)))
            if error.code == Some("AccessDenied".to_string())
    ));
}

#[test]
fn a_failed_look_at_what_is_left_halts_as_a_listing_error() {
    let (deletion, _) = BucketDeletion::begin();
    let (deletion, _) =
        delete_bucket(deletion, Event::VersioningDetected(Some(VersioningState::Unset)));
    let (deletion, directive) = delete_bucket(
        deletion,
        Event::ObjectsListed(Ok(vec![DeletionTarget::plain("k".to_string())])),
    );
    assert_eq!(directive.lines, vec![ProgressLine::DeletingObjects { count: 1 }]);
    assert!(matches!(directive.action, Action::EvictObjects(ref inventory) if inventory.len() == 1));
    let (deletion, directive) = delete_bucket(
        deletion,
        Event::ObjectsEvicted(EvictionResult { successful_count: 1, failed_count: 0 }),
    );
    assert!(matches!(directive.action, Action::CountResidual));
    let (deletion, directive) =
        delete_bucket(deletion, Event::ResidualCounted(Err(EnumerationError { code: None })));
    assert!(deletion.is_over());
    assert!(matches!(
        directive.action,
        Action::Finish(Err(EvictionError::Enumeration(ref error))) if error.code.is_none()
    ));
}
