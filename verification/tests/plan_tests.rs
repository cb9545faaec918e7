use delete_bucket::plan::{batch_keys, plan, DeletionTask, CHUNK_SIZE};
use delete_bucket::target::DeletionTarget;

fn plain_inventory(count: usize) -> Vec<DeletionTarget> {
    let mut inventory = Vec::new();
    for i in 0..count {
        inventory.push(DeletionTarget::plain(format!("object-{}", i)));
    }
    inventory
}

fn batch_sizes(tasks: &[DeletionTask]) -> Vec<usize> {
    let mut sizes = Vec::new();
    for task in tasks {
        if let DeletionTask::Batch { keys } = task {
            sizes.push(keys.len());
        }
    }
    sizes
}

fn joined_keys(tasks: &[DeletionTask]) -> Vec<String> {
    let mut all = Vec::new();
    for task in tasks {
        match task {
            DeletionTask::Batch { keys } => {
                for key in keys {
                    all.push(key.clone());
                }
            }
            DeletionTask::Single { key, .. } => all.push(key.clone()),
        }
    }
    all
}

fn rounded_up(count: usize) -> usize {
    if count % 1000 == 0 {
        count / 1000
    } else {
        count / 1000 + 1
    }
}

#[test]
fn chunk_size_is_the_protocol_ceiling() {
    assert_eq!(CHUNK_SIZE, 1000);
}

#[test]
fn empty_inventory_needs_no_call() {
    let tasks = plan(Vec::new());
    assert!(tasks.is_empty());
}

#[test]
fn one_plain_target_is_one_batch_of_one() {
    let tasks = plan(plain_inventory(1));
    assert_eq!(tasks.len(), 1);
    match &tasks[0] {
        DeletionTask::Batch { keys } => assert_eq!(keys, &vec!["object-0".to_string()]),
        other => panic!("expected a batch, got {:?}", other),
    }
}

#[test]
fn plan_of_1200_plain_targets_is_two_batches() {
    let tasks = plan(plain_inventory(1200));
    assert_eq!(batch_sizes(&tasks), vec![1000, 200]);
    assert_eq!(tasks.len(), 2);
}

#[test]
fn a_full_chunk_is_not_followed_by_an_empty_one() {
    assert_eq!(batch_sizes(&plan(plain_inventory(1000))), vec![1000]);
    assert_eq!(batch_sizes(&plan(plain_inventory(2000))), vec![1000, 1000]);
}

#[test]
fn chunk_boundaries() {
    assert_eq!(batch_sizes(&plan(plain_inventory(999))), vec![999]);
    assert_eq!(batch_sizes(&plan(plain_inventory(1001))), vec![1000, 1]);
    assert_eq!(batch_sizes(&plan(plain_inventory(2500))), vec![1000, 1000, 500]);
}

#[test]
fn batch_count_is_the_count_divided_by_the_ceiling_rounded_up() {
    for count in [0usize, 1, 2, 999, 1000, 1001, 1999, 2000, 2001, 3456] {
        let tasks = plan(plain_inventory(count));
        let sizes = batch_sizes(&tasks);
        assert_eq!(sizes.len(), rounded_up(count));
        assert_eq!(tasks.len(), rounded_up(count));
        for size in &sizes {
            assert!(*size >= 1 && *size <= CHUNK_SIZE);
        }
        let total: usize = sizes.iter().sum();
        assert_eq!(total, count);
    }
}

#[test]
fn batches_keep_the_keys_in_order() {
    let inventory = plain_inventory(2345);
    let expected: Vec<String> = (0..2345).map(|i| format!("object-{}", i)).collect();
    let tasks = plan(inventory);
    assert_eq!(joined_keys(&tasks), expected);
}

#[test]
fn versioned_targets_get_a_call_each() {
    let inventory = vec![
        DeletionTarget::versioned("a".to_string(), "v1".to_string()),
        DeletionTarget::versioned("a".to_string(), "v2".to_string()),
        DeletionTarget::versioned("b".to_string(), "v1".to_string()),
    ];
    let tasks = plan(inventory);
    assert_eq!(tasks.len(), 3);
    let mut seen = Vec::new();
    for task in &tasks {
        match task {
            DeletionTask::Single { key, version_id } => {
                seen.push((key.clone(), version_id.clone()));
                assert_eq!(task.size(), 1);
            }
            other => panic!("expected a single call, got {:?}", other),
        }
    }
    assert_eq!(
        seen,
        vec![
            ("a".to_string(), "v1".to_string()),
            ("a".to_string(), "v2".to_string()),
            ("b".to_string(), "v1".to_string()),
        ]
    );
}

#[test]
fn mixed_inventory_puts_single_calls_before_batches() {
    let inventory = vec![
        DeletionTarget::plain("p1".to_string()),
        DeletionTarget::versioned("k".to_string(), "v1".to_string()),
        DeletionTarget::plain("p2".to_string()),
        DeletionTarget::versioned("k".to_string(), "v2".to_string()),
    ];
    let tasks = plan(inventory);
    assert_eq!(tasks.len(), 3);
    assert!(matches!(&tasks[0], DeletionTask::Single { key, version_id } if key == "k" && version_id == "v1"));
    assert!(matches!(&tasks[1], DeletionTask::Single { key, version_id } if key == "k" && version_id == "v2"));
    match &tasks[2] {
        DeletionTask::Batch { keys } => {
            assert_eq!(keys, &vec!["p1".to_string(), "p2".to_string()]);
            assert_eq!(tasks[2].size(), 2);
        }
        other => panic!("expected a batch, got {:?}", other),
    }
}

#[test]
fn batch_keys_groups_by_the_ceiling() {
    let keys: Vec<String> = (0..1003).map(|i| format!("k{}", i)).collect();
    let tasks = batch_keys(keys.clone());
    assert_eq!(batch_sizes(&tasks), vec![1000, 3]);
    assert_eq!(joined_keys(&tasks), keys);
    assert!(batch_keys(Vec::new()).is_empty());
}

#[test]
fn target_constructors_and_copies() {
    let plain = DeletionTarget::plain("k".to_string());
    assert_eq!(plain.key, "k");
    assert_eq!(plain.version_id, None);
    assert!(!plain.is_versioned());
    let versioned = DeletionTarget::versioned("k".to_string(), "v".to_string());
    assert_eq!(versioned.key, "k");
    assert_eq!(versioned.version_id, Some("v".to_string()));
    assert!(versioned.is_versioned());
    let copy = versioned.duplicate();
    assert_eq!(copy.key, "k");
    assert_eq!(copy.version_id, Some("v".to_string()));
}
