use memory_control::cancel::{is_below_limit, plan_cancellations, rank_tasks, task_ranks_before};
use memory_control::usage::BatchTask;

fn task(id: u64, memory_bytes: usize, elapsed_ms: u64) -> BatchTask {
    BatchTask { id, memory_bytes, elapsed_ms }
}

fn ids(tasks: &[BatchTask]) -> Vec<u64> {
    tasks.iter().map(|t| t.id).collect()
}

#[test]
fn larger_footprint_ranks_first() {
    assert!(task_ranks_before(&task(1, 20, 0), &task(2, 10, 99)));
    assert!(!task_ranks_before(&task(2, 10, 99), &task(1, 20, 0)));
}

#[test]
fn longer_runtime_breaks_a_tie_in_footprint() {
    assert!(task_ranks_before(&task(9, 10, 50), &task(1, 10, 49)));
    assert!(!task_ranks_before(&task(1, 10, 49), &task(9, 10, 50)));
}

#[test]
fn smaller_id_breaks_a_full_tie() {
    assert!(task_ranks_before(&task(1, 10, 50), &task(2, 10, 50)));
    assert!(!task_ranks_before(&task(2, 10, 50), &task(1, 10, 50)));
    assert!(task_ranks_before(&task(2, 10, 50), &task(2, 10, 50)));
}

#[test]
fn ranking_sorts_largest_first() {
    let tasks = vec![
        task(1, 5, 0),
        task(2, 50, 1),
        task(3, 50, 7),
        task(4, 0, 100),
        task(5, 70, 0),
        task(6, 50, 7),
    ];
    assert_eq!(ids(&rank_tasks(&tasks)), vec![5, 3, 6, 2, 1, 4]);
    assert!(rank_tasks(&vec![]).is_empty());
}

#[test]
fn ranking_ignores_the_listing_order() {
    let a = vec![task(1, 5, 0), task(2, 50, 1), task(3, 50, 7), task(4, 70, 0)];
    let b = vec![task(4, 70, 0), task(3, 50, 7), task(1, 5, 0), task(2, 50, 1)];
    assert_eq!(rank_tasks(&a), rank_tasks(&b));
    assert_eq!(rank_tasks(&a).len(), 4);
}

#[test]
fn limit_is_in_thousandths() {
    assert!(is_below_limit(9, 9001));
    assert!(!is_below_limit(9, 9000));
    assert!(!is_below_limit(0, 0));
    assert!(is_below_limit(0, 1));
    assert!(!is_below_limit(u128::MAX, u128::MAX));
    assert!(!is_below_limit(u128::MAX / 1000 + 1, u128::MAX));
}

#[test]
fn plan_is_empty_below_the_limit() {
    let tasks = vec![task(1, 5, 0), task(2, 50, 1)];
    let plan = plan_cancellations(&tasks, 100, 100_001);
    assert!(plan.ids.is_empty());
    assert_eq!(plan.projected_usage, 100);
}

#[test]
fn plan_stops_as_soon_as_usage_is_below_the_limit() {
    let tasks = vec![task(1, 5, 0), task(2, 50, 1), task(3, 30, 1), task(4, 30, 2)];
    // 100 in use, limit 60: cancelling 50 leaves 50, which is below.
    let plan = plan_cancellations(&tasks, 100, 60_000);
    assert_eq!(plan.ids, vec![2]);
    assert_eq!(plan.projected_usage, 50);
    // limit 50: 50 is not below 50, so the older of the two 30s goes too.
    let plan = plan_cancellations(&tasks, 100, 50_000);
    assert_eq!(plan.ids, vec![2, 4]);
    assert_eq!(plan.projected_usage, 20);
}

#[test]
fn plan_never_cancels_a_task_without_memory() {
    let tasks = vec![task(1, 0, 9), task(2, 10, 1), task(3, 0, 1)];
    let plan = plan_cancellations(&tasks, 100, 1_000);
    assert_eq!(plan.ids, vec![2]);
    assert_eq!(plan.projected_usage, 90);
}

#[test]
fn projected_usage_stops_at_zero() {
    let tasks = vec![task(1, 700, 0), task(2, 300, 0)];
    let plan = plan_cancellations(&tasks, 600, 1);
    assert_eq!(plan.ids, vec![1]);
    assert_eq!(plan.projected_usage, 0);
    let plan = plan_cancellations(&tasks, 600, 0);
    assert_eq!(plan.ids, vec![1, 2]);
    assert_eq!(plan.projected_usage, 0);
}

#[test]
fn only_listed_tasks_are_cancelled_and_each_once() {
    let tasks = vec![task(4, 10, 0), task(9, 30, 0), task(2, 20, 0), task(7, 0, 5)];
    let plan = plan_cancellations(&tasks, 1_000, 0);
    assert_eq!(plan.ids, vec![9, 2, 4]);
    assert_eq!(plan.projected_usage, 940);
    for id in &plan.ids {
        assert_eq!(tasks.iter().filter(|t| t.id == *id).count(), 1);
    }
}
