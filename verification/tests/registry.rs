use memory_control::registry::BatchTaskRegistry;
use memory_control::usage::BatchTask;

fn task(id: u64, memory_bytes: usize) -> BatchTask {
    BatchTask { id, memory_bytes, elapsed_ms: 0 }
}

fn filled() -> BatchTaskRegistry {
    let mut registry = BatchTaskRegistry::new();
    registry.register(task(1, 10));
    registry.register(task(2, 20));
    registry.register(task(3, 30));
    registry
}

#[test]
fn new_registry_is_empty() {
    let registry = BatchTaskRegistry::new();
    assert_eq!(registry.len(), 0);
    assert_eq!(registry.snapshot_usage(), 0);
    assert!(registry.running().is_empty());
    assert!(!registry.contains(1));
}

#[test]
fn registered_tasks_are_running() {
    let registry = filled();
    assert_eq!(registry.len(), 3);
    assert!(registry.contains(1) && registry.contains(2) && registry.contains(3));
    assert!(!registry.contains(4));
    assert_eq!(registry.running(), &vec![task(1, 10), task(2, 20), task(3, 30)]);
    assert_eq!(registry.snapshot_usage(), 60);
}

#[test]
fn usage_stops_at_the_largest_count() {
    let mut registry = BatchTaskRegistry::new();
    registry.register(task(1, usize::MAX));
    registry.register(task(2, 1));
    assert_eq!(registry.snapshot_usage(), usize::MAX);
}

#[test]
fn cancel_removes_the_task() {
    let mut registry = filled();
    assert!(registry.cancel(2));
    assert_eq!(registry.running(), &vec![task(1, 10), task(3, 30)]);
    assert!(!registry.contains(2));
    assert_eq!(registry.snapshot_usage(), 40);
}

#[test]
fn cancelling_a_finished_task_is_a_no_op() {
    let mut registry = filled();
    assert!(!registry.cancel(9));
    assert_eq!(registry.running(), &vec![task(1, 10), task(2, 20), task(3, 30)]);
    let mut empty = BatchTaskRegistry::new();
    assert!(!empty.cancel(1));
    assert_eq!(empty.len(), 0);
}

#[test]
fn cancelling_twice_is_the_same_as_once() {
    let mut registry = filled();
    assert!(registry.cancel(1));
    let after_first = registry.running().clone();
    assert!(!registry.cancel(1));
    assert_eq!(registry.running(), &after_first);
}

#[test]
fn cancel_removes_every_task_of_the_id() {
    let mut registry = filled();
    registry.register(task(2, 5));
    assert!(registry.cancel(2));
    assert_eq!(registry.running(), &vec![task(1, 10), task(3, 30)]);
}

#[test]
fn cancel_all_counts_what_left() {
    let mut registry = filled();
    assert_eq!(registry.cancel_all(&vec![3, 9, 1, 3]), 2);
    assert_eq!(registry.running(), &vec![task(2, 20)]);
    assert_eq!(registry.cancel_all(&vec![]), 0);
    assert_eq!(registry.len(), 1);
}

#[test]
fn nothing_cancelled_is_left_running() {
    let mut registry = filled();
    registry.register(task(4, 40));
    let ids = vec![4, 1, 4, 8];
    registry.cancel_all(&ids);
    for id in ids {
        assert!(!registry.contains(id));
    }
    assert!(registry.contains(2) && registry.contains(3));
}
