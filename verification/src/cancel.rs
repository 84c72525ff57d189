//! Choosing which batch tasks to cancel when eviction alone cannot relieve
//! the pressure.
//!
//! Tasks are cancelled largest first, and no more of them than are needed to
//! bring the projected usage below the limit.

use vstd::prelude::*;
use vstd::relations::*;
use vstd::seq_lib::*;
use crate::usage::BatchTask;

verus! {

/// Whether `a` is cancelled no later than `b`: the task that holds more
/// memory goes first; among equal footprints the one that has run longer;
/// among those the one with the smaller identifier.
pub open spec fn ranks_before(a: BatchTask, b: BatchTask) -> bool {
    if a.memory_bytes != b.memory_bytes {
        a.memory_bytes > b.memory_bytes
    } else if a.elapsed_ms != b.elapsed_ms {
        a.elapsed_ms > b.elapsed_ms
    } else {
        a.id <= b.id
    }
}

/// `ranks_before` as a relation.
pub open spec fn cancel_rank() -> spec_fn(BatchTask, BatchTask) -> bool {
    |a: BatchTask, b: BatchTask| ranks_before(a, b)
}

/// The tasks in the order in which they would be cancelled.
pub open spec fn cancel_order(tasks: Seq<BatchTask>) -> Seq<BatchTask> {
    tasks.sort_by(cancel_rank())
}

/// Whether `usage` bytes lie strictly below `limit`, a bound given in
/// thousandths of a byte (a fraction in per mille times a budget in bytes).
pub open spec fn below_limit(usage: nat, limit: nat) -> bool {
    usage * 1000 < limit
}

/// Usage that is left once `freed` bytes are given back.
pub open spec fn usage_after(usage: nat, freed: nat) -> nat {
    if freed >= usage {
        0
    } else {
        (usage - freed) as nat
    }
}

/// Usage that is left once every task of `cancelled` has given back its memory.
pub open spec fn projected_usage(cancelled: Seq<BatchTask>, usage: nat) -> nat
    decreases cancelled.len(),
{
    if cancelled.len() == 0 {
        usage
    } else {
        projected_usage(cancelled.drop_first(), usage_after(usage, cancelled[0].memory_bytes as nat))
    }
}

/// How many tasks at the head of `ranked` are cancelled: one after the other
/// until the projected usage is below the limit, or until the next task
/// holds no memory, or until none is left.
pub open spec fn relief_count(ranked: Seq<BatchTask>, usage: nat, limit: nat) -> nat
    decreases ranked.len(),
{
    if ranked.len() == 0 || below_limit(usage, limit) || ranked[0].memory_bytes == 0 {
        0
    } else {
        1 + relief_count(ranked.drop_first(), usage_after(usage, ranked[0].memory_bytes as nat), limit)
    }
}

/// The tasks that are cancelled, first to last.
pub open spec fn cancelled_tasks(tasks: Seq<BatchTask>, usage: nat, limit: nat) -> Seq<BatchTask> {
    cancel_order(tasks).take(relief_count(cancel_order(tasks), usage, limit) as int)
}

/// The identifiers of `tasks`, in their order.
pub open spec fn task_ids(tasks: Seq<BatchTask>) -> Seq<u64> {
    tasks.map_values(|t: BatchTask| t.id)
}

/// What a cancellation round asks for and what it expects to gain.
#[derive(Debug)]
pub struct CancelPlan {
    /// Identifiers of the tasks to cancel, in the order of cancellation.
    pub ids: Vec<u64>,
    /// Usage that remains once all of them have released their memory.
    pub projected_usage: u128,
}

/// The ranking orders any two tasks, and orders them in one way only.
pub proof fn lemma_cancel_rank_is_total()
    ensures
        total_ordering(cancel_rank()),
{
    let r = cancel_rank();
    assert(reflexive(r));
    assert(antisymmetric(r)) by {
        assert forall|x: BatchTask, y: BatchTask| #[trigger] r(x, y) && #[trigger] r(y, x) implies x
            == y by {}
    }
    assert(transitive(r));
    assert(strongly_connected(r));
}

/// What `cancel_order` is: the same tasks, each as often as before, sorted
/// by `ranks_before`.
pub proof fn lemma_cancel_order_sorts(tasks: Seq<BatchTask>)
    ensures
        cancel_order(tasks).to_multiset() == tasks.to_multiset(),
        cancel_order(tasks).len() == tasks.len(),
        sorted_by(cancel_order(tasks), cancel_rank()),
{
    lemma_cancel_rank_is_total();
    tasks.lemma_sort_by_ensures(cancel_rank());
    to_multiset_len(tasks);
    to_multiset_len(cancel_order(tasks));
}

/// Compares two tasks by `ranks_before`.
pub fn task_ranks_before(a: &BatchTask, b: &BatchTask) -> (before: bool)
    ensures
        before == ranks_before(*a, *b),
{
    if a.memory_bytes != b.memory_bytes {
        a.memory_bytes > b.memory_bytes
    } else if a.elapsed_ms != b.elapsed_ms {
        a.elapsed_ms > b.elapsed_ms
    } else {
        a.id <= b.id
    }
}

/// Tests `usage` against a limit in thousandths of a byte.
pub fn is_below_limit(usage: u128, limit: u128) -> (below: bool)
    ensures
        below == below_limit(usage as nat, limit as nat),
{
    match usage.checked_mul(1000) {
        Some(scaled) => scaled < limit,
        None => false,
    }
}

/// Returns the tasks in the order in which they would be cancelled.
pub fn rank_tasks(tasks: &Vec<BatchTask>) -> (ranked: Vec<BatchTask>)
    ensures
        ranked@ == cancel_order(tasks@),
{
    let mut ranked: Vec<BatchTask> = Vec::new();
    let mut i: usize = 0;
    proof {
        lemma_cancel_rank_is_total();
        assert(tasks@.take(0) == ranked@);
    }
    while i < tasks.len()
        invariant
            i <= tasks.len(),
            total_ordering(cancel_rank()),
            sorted_by(ranked@, cancel_rank()),
            ranked@.to_multiset() == tasks@.take(i as int).to_multiset(),
        decreases tasks.len() - i,
    {
        let task = tasks[i];
        let mut j: usize = 0;
        while j < ranked.len() && task_ranks_before(&ranked[j], &task)
            invariant
                j <= ranked.len(),
                forall|k: int| 0 <= k < j ==> ranks_before(#[trigger] ranked@[k], task),
            decreases ranked.len() - j,
        {
            j += 1;
        }
        proof {
            let before = ranked@;
            let after = before.insert(j as int, task);
            assert(sorted_by(after, cancel_rank())) by {
                assert forall|a: int, b: int| 0 <= a < b < after.len() implies (#[trigger] cancel_rank()(
                    after[a],
                    after[b],
                )) by {
                    if b < j {
                        assert(after[a] == before[a] && after[b] == before[b]);
                    } else if b == j {
                        assert(after[a] == before[a]);
                        assert(ranks_before(before[a], task));
                    } else if a < j {
                        assert(after[a] == before[a] && after[b] == before[b - 1]);
                        if a < b - 1 {
                            assert(cancel_rank()(before[a], before[b - 1]));
                        }
                    } else if a == j {
                        assert(after[b] == before[b - 1]);
                        assert(!ranks_before(before[j as int], task));
                        assert(cancel_rank()(task, before[j as int]));
                        if j < b - 1 {
                            assert(cancel_rank()(before[j as int], before[b - 1]));
                        }
                    } else {
                        assert(after[a] == before[a - 1] && after[b] == before[b - 1]);
                        assert(cancel_rank()(before[a - 1], before[b - 1]));
                    }
                }
            }
            to_multiset_insert(before, j as int, task);
            assert(tasks@.take(i + 1) == tasks@.take(i as int).push(task));
            to_multiset_build(tasks@.take(i as int), task);
        }
        ranked.insert(j, task);
        i += 1;
    }
    proof {
        assert(tasks@.take(i as int) == tasks@);
        lemma_cancel_order_sorts(tasks@);
        lemma_sorted_unique(ranked@, cancel_order(tasks@), cancel_rank());
    }
    ranked
}

/// Chooses the tasks to cancel so that `usage` comes below `limit` (in
/// thousandths of a byte): the largest first, none that holds no memory, and
/// none once the projected usage is below the limit.
pub fn plan_cancellations(tasks: &Vec<BatchTask>, usage: u128, limit: u128) -> (plan: CancelPlan)
    ensures
        plan.ids@ == task_ids(cancelled_tasks(tasks@, usage as nat, limit as nat)),
        plan.projected_usage == projected_usage(
            cancelled_tasks(tasks@, usage as nat, limit as nat),
            usage as nat,
        ),
{
    let ranked: Vec<BatchTask> = rank_tasks(tasks);
    let mut ids: Vec<u64> = Vec::new();
    let mut left: u128 = usage;
    let mut i: usize = 0;
    let ghost order = ranked@;
    let ghost count = relief_count(order, usage as nat, limit as nat);
    proof {
        assert(order.skip(0) == order);
        assert(order.take(0).len() == 0);
        assert(task_ids(order.take(0)) == Seq::<u64>::empty());
    }
    while i < ranked.len() && !is_below_limit(left, limit) && ranked[i].memory_bytes != 0
        invariant
            i <= ranked.len(),
            order == ranked@,
            count == relief_count(order, usage as nat, limit as nat),
            count == i + relief_count(order.skip(i as int), left as nat, limit as nat),
            ids@ == task_ids(order.take(i as int)),
            left == projected_usage(order.take(i as int), usage as nat),
        decreases ranked.len() - i,
    {
        let task = ranked[i];
        proof {
            let rest = order.skip(i as int);
            assert(rest[0] == task);
            assert(rest.drop_first() == order.skip(i + 1));
            lemma_projected_usage_push(order.take(i as int), task, usage as nat);
            assert(order.take(i as int).push(task) == order.take(i + 1));
            assert(task_ids(order.take(i + 1)) == task_ids(order.take(i as int)).push(task.id));
        }
        ids.push(task.id);
        left = if task.memory_bytes as u128 >= left {
            0
        } else {
            left - task.memory_bytes as u128
        };
        i += 1;
    }
    proof {
        let rest = order.skip(i as int);
        if i < ranked.len() {
            assert(rest[0] == order[i as int]);
        }
        assert(relief_count(rest, left as nat, limit as nat) == 0);
        assert(count == i);
    }
    CancelPlan { ids, projected_usage: left }
}

/// Cancelling one more task frees that task's memory from what was left.
pub proof fn lemma_projected_usage_push(cancelled: Seq<BatchTask>, next: BatchTask, usage: nat)
    ensures
        projected_usage(cancelled.push(next), usage) == usage_after(
            projected_usage(cancelled, usage),
            next.memory_bytes as nat,
        ),
    decreases cancelled.len(),
{
    if cancelled.len() == 0 {
        assert(cancelled.push(next).drop_first() == Seq::<BatchTask>::empty());
        assert(projected_usage(cancelled.push(next).drop_first(), usage_after(usage, next.memory_bytes as nat))
            == usage_after(usage, next.memory_bytes as nat));
    } else {
        assert(cancelled.push(next).drop_first() == cancelled.drop_first().push(next));
        lemma_projected_usage_push(
            cancelled.drop_first(),
            next,
            usage_after(usage, cancelled[0].memory_bytes as nat),
        );
    }
}


/// The first task in cancellation order is one of the tasks and holds at
/// least as much memory as any of them.
pub proof fn lemma_first_cancelled_is_largest(tasks: Seq<BatchTask>)
    requires
        tasks.len() > 0,
    ensures
        tasks.contains(cancel_order(tasks)[0]),
        forall|i: int|
            0 <= i < tasks.len() ==> (#[trigger] tasks[i]).memory_bytes <= cancel_order(
                tasks,
            )[0].memory_bytes,
{
    broadcast use group_to_multiset_ensures;

    let order = cancel_order(tasks);
    lemma_cancel_order_sorts(tasks);
    assert(order.to_multiset().contains(order[0]));
    assert forall|i: int| 0 <= i < tasks.len() implies (#[trigger] tasks[i]).memory_bytes
        <= order[0].memory_bytes by {
        assert(tasks.to_multiset().contains(tasks[i]));
        assert(order.contains(tasks[i]));
        let k = choose|k: int| 0 <= k < order.len() && order[k] == tasks[i];
        if k > 0 {
            assert(cancel_rank()(order[0], order[k]));
        }
    }
}

/// Only tasks that are running are cancelled.
pub proof fn lemma_cancelled_are_running(tasks: Seq<BatchTask>, usage: nat, limit: nat, k: int)
    requires
        0 <= k < cancelled_tasks(tasks, usage, limit).len(),
    ensures
        tasks.contains(cancelled_tasks(tasks, usage, limit)[k]),
{
    broadcast use group_to_multiset_ensures;

    let order = cancel_order(tasks);
    lemma_cancel_order_sorts(tasks);
    lemma_relief_count_bounds(order, usage, limit);
    assert(cancelled_tasks(tasks, usage, limit)[k] == order[k]);
    assert(order.to_multiset().contains(order[k]));
}

/// The order of cancellation does not depend on the order in which the tasks
/// are listed.
pub proof fn lemma_cancel_order_ignores_listing(listed: Seq<BatchTask>, relisted: Seq<BatchTask>)
    requires
        listed.to_multiset() == relisted.to_multiset(),
    ensures
        cancel_order(listed) == cancel_order(relisted),
        forall|usage: nat, limit: nat| #[trigger]
            cancelled_tasks(listed, usage, limit) == cancelled_tasks(relisted, usage, limit),
{
    lemma_cancel_order_sorts(listed);
    lemma_cancel_order_sorts(relisted);
    lemma_cancel_rank_is_total();
    lemma_sorted_unique(cancel_order(listed), cancel_order(relisted), cancel_rank());
}

/// No more tasks are cancelled than there are, and every cancelled task
/// holds memory.
pub proof fn lemma_relief_count_bounds(ranked: Seq<BatchTask>, usage: nat, limit: nat)
    ensures
        relief_count(ranked, usage, limit) <= ranked.len(),
        forall|k: int|
            0 <= k < relief_count(ranked, usage, limit) ==> (#[trigger] ranked[k]).memory_bytes > 0,
    decreases ranked.len(),
{
    if ranked.len() == 0 || below_limit(usage, limit) || ranked[0].memory_bytes == 0 {
    } else {
        let rest = ranked.drop_first();
        let left = usage_after(usage, ranked[0].memory_bytes as nat);
        lemma_relief_count_bounds(rest, left, limit);
        assert forall|k: int| 0 <= k < relief_count(ranked, usage, limit) implies (#[trigger] ranked[k]).memory_bytes
            > 0 by {
            if k > 0 {
                assert(ranked[k] == rest[k - 1]);
            }
        }
    }
}

/// Every cancellation is needed: before each cancelled task is reached, the
/// usage projected from the cancellations made so far is still at or above
/// the limit.
pub proof fn lemma_no_cancellation_is_spared(ranked: Seq<BatchTask>, usage: nat, limit: nat, k: int)
    requires
        0 <= k < relief_count(ranked, usage, limit),
    ensures
        k < ranked.len(),
        !below_limit(projected_usage(ranked.take(k), usage), limit),
    decreases ranked.len(),
{
    lemma_relief_count_bounds(ranked, usage, limit);
    if k == 0 {
        assert(ranked.take(0).len() == 0);
    } else {
        let rest = ranked.drop_first();
        let left = usage_after(usage, ranked[0].memory_bytes as nat);
        lemma_no_cancellation_is_spared(rest, left, limit, k - 1);
        assert(ranked.take(k).drop_first() == rest.take(k - 1));
    }
}

/// Cancellation stops only for a reason: the projected usage is below the
/// limit, or no task is left that holds any memory.
pub proof fn lemma_cancellation_runs_to_relief(ranked: Seq<BatchTask>, usage: nat, limit: nat)
    requires
        sorted_by(ranked, cancel_rank()),
    ensures
        ({
            let n = relief_count(ranked, usage, limit) as int;
            ||| below_limit(projected_usage(ranked.take(n), usage), limit)
            ||| forall|j: int| n <= j < ranked.len() ==> (#[trigger] ranked[j]).memory_bytes == 0
        }),
    decreases ranked.len(),
{
    let n = relief_count(ranked, usage, limit) as int;
    if ranked.len() == 0 {
    } else if below_limit(usage, limit) {
        assert(ranked.take(0).len() == 0);
    } else if ranked[0].memory_bytes == 0 {
        assert forall|j: int| 0 <= j < ranked.len() implies (#[trigger] ranked[j]).memory_bytes
            == 0 by {
            if j > 0 {
                assert(cancel_rank()(ranked[0], ranked[j]));
            }
        }
    } else {
        let rest = ranked.drop_first();
        let left = usage_after(usage, ranked[0].memory_bytes as nat);
        assert(sorted_by(rest, cancel_rank())) by {
            assert forall|a: int, b: int| 0 <= a < b < rest.len() implies (#[trigger] cancel_rank()(
                rest[a],
                rest[b],
            )) by {
                assert(cancel_rank()(ranked[a + 1], ranked[b + 1]));
            }
        }
        lemma_cancellation_runs_to_relief(rest, left, limit);
        lemma_relief_count_bounds(rest, left, limit);
        let m = relief_count(rest, left, limit) as int;
        assert(ranked.take(n).drop_first() == rest.take(m));
        if !below_limit(projected_usage(rest.take(m), left), limit) {
            assert forall|j: int| n <= j < ranked.len() implies (#[trigger] ranked[j]).memory_bytes
                == 0 by {
                assert(ranked[j] == rest[j - 1]);
            }
        }
    }
}

/// Where cancelling the single largest task brings the usage below the
/// limit, that task is cancelled and no other.
pub proof fn lemma_one_cancellation_when_largest_suffices(
    tasks: Seq<BatchTask>,
    usage: nat,
    limit: nat,
)
    requires
        tasks.len() > 0,
        !below_limit(usage, limit),
        cancel_order(tasks)[0].memory_bytes > 0,
        below_limit(usage_after(usage, cancel_order(tasks)[0].memory_bytes as nat), limit),
    ensures
        cancelled_tasks(tasks, usage, limit) == seq![cancel_order(tasks)[0]],
        task_ids(cancelled_tasks(tasks, usage, limit)) == seq![cancel_order(tasks)[0].id],
        below_limit(projected_usage(cancelled_tasks(tasks, usage, limit), usage), limit),
{
    let order = cancel_order(tasks);
    lemma_cancel_order_sorts(tasks);
    let left = usage_after(usage, order[0].memory_bytes as nat);
    assert(relief_count(order.drop_first(), left, limit) == 0);
    assert(relief_count(order, usage, limit) == 1);
    assert(order.take(1) == seq![order[0]]);
    assert(seq![order[0]].drop_first().len() == 0);
    assert(projected_usage(seq![order[0]].drop_first(), left) == left);
}

/// Nothing is cancelled while the usage is below the limit.
pub proof fn lemma_no_cancellation_below_limit(tasks: Seq<BatchTask>, usage: nat, limit: nat)
    requires
        below_limit(usage, limit),
    ensures
        cancelled_tasks(tasks, usage, limit) == Seq::<BatchTask>::empty(),
        task_ids(cancelled_tasks(tasks, usage, limit)) == Seq::<u64>::empty(),
{
    assert(cancel_order(tasks).take(0).len() == 0);
}

} // verus!
