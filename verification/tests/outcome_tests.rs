use delete_bucket::outcome::{count_failures, names_key, BatchOutcome, EvictionResult};
use delete_bucket::plan::DeletionTask;
use delete_bucket::residual::{verify_empty, ResidualObjects};
use delete_bucket::versioning::{disable_versioning, VersioningState};

fn keys(names: &[&str]) -> Vec<String> {
    names.iter().map(|name| name.to_string()).collect()
}

fn single(key: &str, version_id: &str) -> DeletionTask {
    DeletionTask::Single { key: key.to_string(), version_id: version_id.to_string() }
}

#[test]
fn a_failed_call_fails_for_all_its_targets() {
    let batch = DeletionTask::Batch { keys: keys(&["a", "b", "c"]) };
    assert_eq!(count_failures(&batch, &BatchOutcome::Failed), 3);
    assert_eq!(count_failures(&single("a", "v1"), &BatchOutcome::Failed), 1);
}

#[test]
fn a_clean_call_fails_for_none() {
    let batch = DeletionTask::Batch { keys: keys(&["a", "b", "c"]) };
    let clean = BatchOutcome::Completed { failed_keys: Vec::new() };
    assert_eq!(count_failures(&batch, &clean), 0);
    assert_eq!(count_failures(&single("a", "v1"), &clean), 0);
}

#[test]
fn per_key_errors_count_the_keys_of_the_call_that_they_name() {
    let batch = DeletionTask::Batch { keys: keys(&["a", "b", "c", "d"]) };
    let outcome = BatchOutcome::Completed { failed_keys: keys(&["d", "b"]) };
    assert_eq!(count_failures(&batch, &outcome), 2);
}

#[test]
fn errors_for_keys_outside_the_call_count_for_nothing() {
    let batch = DeletionTask::Batch { keys: keys(&["a", "b"]) };
    let outcome = BatchOutcome::Completed { failed_keys: keys(&["x", "y", "z", "a"]) };
    assert_eq!(count_failures(&batch, &outcome), 1);
}

#[test]
fn an_error_named_twice_counts_once() {
    let batch = DeletionTask::Batch { keys: keys(&["a", "b"]) };
    let outcome = BatchOutcome::Completed { failed_keys: keys(&["a", "a", "a"]) };
    assert_eq!(count_failures(&batch, &outcome), 1);
}

#[test]
fn a_single_call_whose_key_is_reported_counts_as_failed() {
    let outcome = BatchOutcome::Completed { failed_keys: keys(&["a"]) };
    assert_eq!(count_failures(&single("a", "v1"), &outcome), 1);
    assert_eq!(count_failures(&single("b", "v1"), &outcome), 0);
}

#[test]
fn outcome_of_a_single_call() {
    match BatchOutcome::of_single(true) {
        BatchOutcome::Completed { failed_keys } => assert!(failed_keys.is_empty()),
        other => panic!("expected a completed call, got {:?}", other),
    }
    assert!(matches!(BatchOutcome::of_single(false), BatchOutcome::Failed));
    assert_eq!(count_failures(&single("a", "v"), &BatchOutcome::of_single(true)), 0);
    assert_eq!(count_failures(&single("a", "v"), &BatchOutcome::of_single(false)), 1);
}

#[test]
fn names_key_finds_exact_keys_only() {
    let failed = keys(&["alpha", "beta"]);
    assert!(names_key(&failed, &"alpha".to_string()));
    assert!(names_key(&failed, &"beta".to_string()));
    assert!(!names_key(&failed, &"alph".to_string()));
    assert!(!names_key(&failed, &"Alpha".to_string()));
    assert!(!names_key(&Vec::new(), &"alpha".to_string()));
}

#[test]
fn eviction_result_compares_by_its_counts() {
    let a = EvictionResult { successful_count: 3, failed_count: 0 };
    let b = EvictionResult { successful_count: 3, failed_count: 0 };
    let c = EvictionResult { successful_count: 2, failed_count: 1 };
    assert_eq!(a, b);
    assert_ne!(a, c);
}

#[test]
fn suspension_is_decided_for_enabled_versioning_only() {
    assert!(disable_versioning(Some(VersioningState::Enabled)));
    assert!(!disable_versioning(Some(VersioningState::Suspended)));
    assert!(!disable_versioning(Some(VersioningState::Unset)));
    assert!(!disable_versioning(None));
}

#[test]
fn an_empty_bucket_passes_verification() {
    assert_eq!(verify_empty(0), Ok(()));
}

#[test]
fn residual_objects_fail_verification_with_their_count() {
    assert_eq!(verify_empty(3), Err(ResidualObjects { count: 3 }));
    assert_eq!(verify_empty(1), Err(ResidualObjects { count: 1 }));
    assert_eq!(verify_empty(-1), Err(ResidualObjects { count: -1 }));
    assert_eq!(verify_empty(i32::MAX), Err(ResidualObjects { count: i32::MAX }));
}
