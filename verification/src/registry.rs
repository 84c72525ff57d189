//! A table of the batch tasks that are running.
//!
//! The control loop reads the table every tick and cancels what the policy
//! names. A task may finish at any moment, so cancelling a task that is no
//! longer in the table is not an error: it changes nothing.

use vstd::prelude::*;
use crate::usage::BatchTask;

verus! {

/// Whether a task with the given identifier is among `tasks`.
pub open spec fn is_running(tasks: Seq<BatchTask>, id: u64) -> bool {
    exists|i: int| 0 <= i < tasks.len() && (#[trigger] tasks[i]).id == id
}

/// `tasks` without every task of the given identifier, the others in their order.
pub open spec fn without(tasks: Seq<BatchTask>, id: u64) -> Seq<BatchTask> {
    tasks.filter(|task: BatchTask| task.id != id)
}

/// `tasks` after the tasks of each identifier in `ids` have been cancelled,
/// one identifier after the other.
pub open spec fn without_all(tasks: Seq<BatchTask>, ids: Seq<u64>) -> Seq<BatchTask>
    decreases ids.len(),
{
    if ids.len() == 0 {
        tasks
    } else {
        without(without_all(tasks, ids.drop_last()), ids.last())
    }
}

/// Memory that `tasks` hold together, in bytes.
pub open spec fn total_memory(tasks: Seq<BatchTask>) -> nat
    decreases tasks.len(),
{
    if tasks.len() == 0 {
        0
    } else {
        total_memory(tasks.drop_last()) + tasks.last().memory_bytes as nat
    }
}

/// The running batch tasks, in the order in which they were registered.
#[derive(Debug)]
pub struct BatchTaskRegistry {
    tasks: Vec<BatchTask>,
}

impl View for BatchTaskRegistry {
    type V = Seq<BatchTask>;

    closed spec fn view(&self) -> Seq<BatchTask> {
        self.tasks@
    }
}

impl BatchTaskRegistry {
    /// A table without tasks.
    pub fn new() -> (registry: BatchTaskRegistry)
        ensures
            registry@ == Seq::<BatchTask>::empty(),
    {
        BatchTaskRegistry { tasks: Vec::new() }
    }

    /// Enters a task that has started.
    pub fn register(&mut self, task: BatchTask)
        ensures
            final(self)@ == old(self)@.push(task),
    {
        self.tasks.push(task);
    }

    /// Number of running tasks.
    pub fn len(&self) -> (len: usize)
        ensures
            len == self@.len(),
    {
        self.tasks.len()
    }

    /// The running tasks, for the policy to choose from.
    pub fn running(&self) -> (tasks: &Vec<BatchTask>)
        ensures
            tasks@ == self@,
    {
        &self.tasks
    }

    /// Whether a task with the given identifier is running.
    pub fn contains(&self, id: u64) -> (found: bool)
        ensures
            found == is_running(self@, id),
    {
        let mut i: usize = 0;
        while i < self.tasks.len()
            invariant
                i <= self.tasks.len(),
                forall|k: int| 0 <= k < i ==> (#[trigger] self.tasks@[k]).id != id,
            decreases self.tasks.len() - i,
        {
            if self.tasks[i].id == id {
                return true;
            }
            i += 1;
        }
        false
    }

    /// Memory that the running tasks hold together, in bytes; the largest
    /// number of bytes that can be told where the sum exceeds it.
    pub fn snapshot_usage(&self) -> (bytes: usize)
        ensures
            bytes == if total_memory(self@) > usize::MAX {
                usize::MAX as nat
            } else {
                total_memory(self@)
            },
    {
        let mut bytes: usize = 0;
        let mut i: usize = 0;
        proof {
            assert(self.tasks@.take(0).len() == 0);
        }
        while i < self.tasks.len()
            invariant
                i <= self.tasks.len(),
                bytes == if total_memory(self.tasks@.take(i as int)) > usize::MAX {
                    usize::MAX as nat
                } else {
                    total_memory(self.tasks@.take(i as int))
                },
            decreases self.tasks.len() - i,
        {
            proof {
                assert(self.tasks@.take(i + 1).drop_last() == self.tasks@.take(i as int));
            }
            bytes = bytes.saturating_add(self.tasks[i].memory_bytes);
            i += 1;
        }
        proof {
            assert(self.tasks@.take(i as int) == self.tasks@);
        }
        bytes
    }

    /// Cancels the task with the given identifier and tells whether there
    /// was one. Where there is none, because the task has finished or was
    /// cancelled before, the table stays as it is.
    pub fn cancel(&mut self, id: u64) -> (found: bool)
        ensures
            final(self)@ == without(old(self)@, id),
            found == is_running(old(self)@, id),
            !found ==> final(self)@ == old(self)@,
    {
        let mut kept: Vec<BatchTask> = Vec::new();
        let mut found: bool = false;
        let mut i: usize = 0;
        let ghost before = self.tasks@;
        proof {
            reveal(Seq::filter);
            assert(before.take(0).len() == 0);
        }
        while i < self.tasks.len()
            invariant
                i <= self.tasks.len(),
                before == self.tasks@,
                kept@ == without(before.take(i as int), id),
                found == is_running(before.take(i as int), id),
            decreases self.tasks.len() - i,
        {
            let task = self.tasks[i];
            proof {
                reveal(Seq::filter);
                let head = before.take(i as int);
                let next = before.take(i + 1);
                assert(next.drop_last() == head);
                assert(next.last() == task);
                if task.id == id {
                    assert(next[i as int].id == id);
                } else if is_running(next, id) {
                    let k = choose|k: int| 0 <= k < next.len() && (#[trigger] next[k]).id == id;
                    assert(head[k].id == id);
                }
                if is_running(head, id) {
                    let k = choose|k: int| 0 <= k < head.len() && (#[trigger] head[k]).id == id;
                    assert(next[k].id == id);
                }
            }
            if task.id == id {
                found = true;
            } else {
                kept.push(task);
            }
            i += 1;
        }
        proof {
            assert(before.take(i as int) == before);
            if !found {
                lemma_cancel_absent_is_noop(before, id);
            }
        }
        self.tasks = kept;
        found
    }

    /// Cancels the tasks of every identifier in `ids`, in their order, and
    /// returns how many tasks left the table.
    pub fn cancel_all(&mut self, ids: &Vec<u64>) -> (cancelled: usize)
        ensures
            final(self)@ == without_all(old(self)@, ids@),
            cancelled == old(self)@.len() - final(self)@.len(),
    {
        let count_before: usize = self.tasks.len();
        let mut i: usize = 0;
        proof {
            assert(ids@.take(0).len() == 0);
        }
        while i < ids.len()
            invariant
                i <= ids.len(),
                self@ == without_all(old(self)@, ids@.take(i as int)),
                self@.len() <= old(self)@.len(),
                count_before == old(self)@.len(),
            decreases ids.len() - i,
        {
            proof {
                assert(ids@.take(i + 1).drop_last() == ids@.take(i as int));
                self@.lemma_filter_len(|task: BatchTask| task.id != ids@[i as int]);
            }
            self.cancel(ids[i]);
            i += 1;
        }
        proof {
            assert(ids@.take(i as int) == ids@);
        }
        count_before - self.tasks.len()
    }
}

/// Cancelling a task that is not running changes nothing.
pub proof fn lemma_cancel_absent_is_noop(tasks: Seq<BatchTask>, id: u64)
    requires
        !is_running(tasks, id),
    ensures
        without(tasks, id) == tasks,
    decreases tasks.len(),
{
    reveal(Seq::filter);
    if tasks.len() > 0 {
        let head = tasks.drop_last();
        assert(!is_running(head, id)) by {
            if is_running(head, id) {
                let k = choose|k: int| 0 <= k < head.len() && (#[trigger] head[k]).id == id;
                assert(tasks[k].id == id);
            }
        }
        lemma_cancel_absent_is_noop(head, id);
        assert(tasks[tasks.len() - 1].id != id);
        assert(head.push(tasks.last()) == tasks);
    }
}

/// Once cancelled, a task is not running any more.
pub proof fn lemma_cancelled_is_gone(tasks: Seq<BatchTask>, id: u64)
    ensures
        !is_running(without(tasks, id), id),
{
    broadcast use Seq::lemma_filter_pred;

    let kept = without(tasks, id);
    if is_running(kept, id) {
        let k = choose|k: int| 0 <= k < kept.len() && (#[trigger] kept[k]).id == id;
        tasks.lemma_filter_pred(|task: BatchTask| task.id != id, k);
    }
}

/// Cancelling is idempotent: a second cancellation of the same task changes
/// nothing.
pub proof fn lemma_cancel_is_idempotent(tasks: Seq<BatchTask>, id: u64)
    ensures
        without(without(tasks, id), id) == without(tasks, id),
{
    lemma_cancelled_is_gone(tasks, id);
    lemma_cancel_absent_is_noop(without(tasks, id), id);
}

/// A task that is not running does not come back when another is cancelled.
pub proof fn lemma_cancel_revives_nothing(tasks: Seq<BatchTask>, id: u64, other: u64)
    requires
        !is_running(tasks, other),
    ensures
        !is_running(without(tasks, id), other),
{
    let kept = without(tasks, id);
    if is_running(kept, other) {
        let k = choose|k: int| 0 <= k < kept.len() && (#[trigger] kept[k]).id == other;
        tasks.lemma_filter_contains_rev(|task: BatchTask| task.id != id, kept[k]);
        let j = choose|j: int| 0 <= j < tasks.len() && tasks[j] == kept[k];
        assert(tasks[j].id == other);
    }
}

/// After a round of cancellations none of the tasks named is running.
pub proof fn lemma_cancelled_all_are_gone(tasks: Seq<BatchTask>, ids: Seq<u64>, i: int)
    requires
        0 <= i < ids.len(),
    ensures
        !is_running(without_all(tasks, ids), ids[i]),
    decreases ids.len(),
{
    let earlier = ids.drop_last();
    if i == ids.len() - 1 {
        lemma_cancelled_is_gone(without_all(tasks, earlier), ids.last());
    } else {
        lemma_cancelled_all_are_gone(tasks, earlier, i);
        assert(earlier[i] == ids[i]);
        lemma_cancel_revives_nothing(without_all(tasks, earlier), ids.last(), ids[i]);
    }
}

/// Cancelling one task leaves every other task running.
pub proof fn lemma_cancel_spares_others(tasks: Seq<BatchTask>, id: u64, other: int)
    requires
        0 <= other < tasks.len(),
        tasks[other].id != id,
    ensures
        without(tasks, id).contains(tasks[other]),
{
    tasks.lemma_filter_contains(|task: BatchTask| task.id != id, other);
}

} // verus!
