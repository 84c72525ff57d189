//! The control loop of a compute node, one tick at a time.
//!
//! The manager owns the watermark clock and the state that is carried from
//! tick to tick. Whoever drives it samples the usage, calls `tick`, cancels
//! the tasks the tick names, publishes the metrics, and sleeps until the next
//! tick is due. Ticks never overlap: a tick borrows the manager exclusively.

use std::sync::atomic::AtomicU64;
use std::sync::Arc;
use vstd::prelude::*;
use crate::budget::{clamped_interval, min_compute_memory_bytes, ConfigError, MemoryBudget};
use crate::cancel::task_ids;
use crate::policy::{ControlPolicy, MemoryControlPolicy, PolicyDecision};
use crate::registry::{total_memory, without_all, BatchTaskRegistry};
use crate::state::ControllerState;
use crate::usage::{probe_value, BatchTask, UsageReading};
use crate::watermark::{advanced_epoch, base_epoch_delta, WatermarkClock};

verus! {

/// What one tick reports to the metrics sink.
#[derive(Debug, Clone, Copy, PartialEq, Eq, Structural)]
pub struct TickMetrics {
    /// Streaming memory usage, in bytes.
    pub streaming_bytes: usize,
    /// Batch memory usage, in bytes.
    pub batch_bytes: usize,
    /// Allocator-reported memory usage, in bytes.
    pub allocator_bytes: usize,
    /// Watermark step after the tick.
    pub watermark_step: u32,
    /// Watermark epoch after the tick.
    pub watermark_epoch: u64,
    /// Wall-clock time of the tick, in milliseconds.
    pub physical_now_ms: u64,
    /// Number of ticks so far, this one included.
    pub tick_count: u64,
}

/// What the driver of the loop has to carry out after a tick.
#[derive(Debug)]
pub struct TickOutcome {
    /// Batch tasks to cancel, in the order of cancellation.
    pub cancel: Vec<u64>,
    /// Set when the usage is expected to stay at or above the hard threshold
    /// even after every cancellation: worth a warning, never fatal.
    pub sustained_pressure: bool,
    /// The figures to publish.
    pub metrics: TickMetrics,
}

/// The state after a tick at time `now_ms` that read `reading`.
pub open spec fn next_state(
    policy: MemoryControlPolicy,
    budget: MemoryBudget,
    state: ControllerState,
    now_ms: u64,
    reading: UsageReading,
) -> ControllerState {
    let step = policy.next_step(
        state.watermark_step,
        state.observed(),
        reading,
        budget.total_bytes() as nat,
    );
    ControllerState {
        batch_bytes: reading.batch_bytes,
        streaming_bytes: reading.streaming_bytes,
        allocator_bytes: reading.allocator_bytes,
        watermark_step: step,
        watermark_epoch: advanced_epoch(state.watermark_epoch, budget.tick_interval_ms(), step),
        last_tick_ms: now_ms,
    }
}

/// The reading of a tick that takes its batch usage from the table of running
/// tasks and its other two signals from probes that may have failed.
pub open spec fn sampled_reading(
    tasks: Seq<BatchTask>,
    streaming: Option<usize>,
    allocator: Option<usize>,
) -> UsageReading {
    UsageReading {
        batch_bytes: if total_memory(tasks) > usize::MAX {
            usize::MAX
        } else {
            total_memory(tasks) as usize
        },
        streaming_bytes: probe_value(streaming),
        allocator_bytes: probe_value(allocator),
    }
}

/// The reason given to a batch task that the controller cancels, so that its
/// caller can tell resource pressure from a failure of the query itself.
pub const CANCELLED_FOR_MEMORY: &'static str = "terminated due to resource pressure";

/// One tick as the loop sees it: the wall-clock time and what was read.
#[derive(Debug, Clone, Copy, PartialEq, Eq, Structural)]
pub struct TickInput {
    pub now_ms: u64,
    pub reading: UsageReading,
}

/// The state after a run of ticks, one after the other.
pub open spec fn state_after(
    policy: MemoryControlPolicy,
    budget: MemoryBudget,
    state: ControllerState,
    ticks: Seq<TickInput>,
) -> ControllerState
    decreases ticks.len(),
{
    if ticks.len() == 0 {
        state
    } else {
        next_state(
            policy,
            budget,
            state_after(policy, budget, state, ticks.drop_last()),
            ticks.last().now_ms,
            ticks.last().reading,
        )
    }
}

/// What a run of ticks read, tick by tick.
pub open spec fn readings_of(ticks: Seq<TickInput>) -> Seq<UsageReading> {
    ticks.map_values(|tick: TickInput| tick.reading)
}

/// The tick count after one more tick. It stops at the largest count.
pub open spec fn next_tick_count(count: u64) -> u64 {
    if count < u64::MAX {
        (count + 1) as u64
    } else {
        count
    }
}

/// Limits the memory used by computing tasks, streaming and batch: it
/// advances the eviction watermark and names the batch tasks to cancel.
#[derive(Debug)]
pub struct GlobalMemoryManager {
    /// All cached data before the watermark should be evicted.
    watermark: WatermarkClock,
    /// Total memory that computing tasks may use, and the tick interval.
    budget: MemoryBudget,
    /// The memory control policy for computing tasks.
    memory_control_policy: MemoryControlPolicy,
    last_reading: UsageReading,
    watermark_step: u32,
    last_tick_ms: u64,
    tick_count: u64,
}

impl GlobalMemoryManager {
    pub closed spec fn spec_budget(&self) -> MemoryBudget {
        self.budget
    }

    pub closed spec fn spec_policy(&self) -> MemoryControlPolicy {
        self.memory_control_policy
    }

    pub closed spec fn spec_state(&self) -> ControllerState {
        ControllerState {
            batch_bytes: self.last_reading.batch_bytes,
            streaming_bytes: self.last_reading.streaming_bytes,
            allocator_bytes: self.last_reading.allocator_bytes,
            watermark_step: self.watermark_step,
            watermark_epoch: self.watermark.current(),
            last_tick_ms: self.last_tick_ms,
        }
    }

    pub closed spec fn spec_tick_count(&self) -> u64 {
        self.tick_count
    }

    /// The cell that the watermark is published in.
    pub closed spec fn watermark_cell(&self) -> Arc<AtomicU64> {
        self.watermark.cell()
    }

    /// The interval the watermark clock advances by.
    pub closed spec fn clock_interval_ms(&self) -> u32 {
        self.watermark.tick_interval_ms()
    }

    /// A manager is well formed when its budget is valid, its clock runs at
    /// the interval of the budget, and its step lies within what the policy
    /// admits. `new` builds such a manager and `tick` keeps it so.
    pub open spec fn wf(&self) -> bool {
        &&& self.budget().wf()
        &&& self.clock_interval_ms() == self.budget().tick_interval_ms()
        &&& self.state().watermark_step <= self.policy().max_step()
    }

    /// Builds a manager that has not ticked yet: watermark, step and tick
    /// count at zero. A budget below the compute floor is refused; a tick
    /// interval below the minimal one is raised to it.
    pub fn new(
        total_compute_memory_bytes: usize,
        barrier_interval_ms: u32,
        memory_control_policy: MemoryControlPolicy,
    ) -> (made: Result<GlobalMemoryManager, ConfigError>)
        ensures
            made is Err <==> total_compute_memory_bytes < min_compute_memory_bytes(),
            made matches Err(e) ==> e == ConfigError::BudgetBelowFloor,
            made matches Ok(manager) ==> {
                &&& manager.wf()
                &&& manager.budget().total_bytes() == total_compute_memory_bytes
                &&& manager.budget().tick_interval_ms() == clamped_interval(barrier_interval_ms)
                &&& manager.policy() == memory_control_policy
                &&& manager.state() == ControllerState::initial()
                &&& manager.tick_count() == 0
            },
    {
        let budget: MemoryBudget = match MemoryBudget::new(
            total_compute_memory_bytes,
            barrier_interval_ms,
        ) {
            Ok(budget) => budget,
            Err(e) => { return Err(e); },
        };
        let watermark: WatermarkClock = WatermarkClock::new(budget.tick_interval_ms());
        Ok(
            GlobalMemoryManager {
                watermark,
                budget,
                memory_control_policy,
                last_reading: UsageReading::zero(),
                watermark_step: 0,
                last_tick_ms: 0,
                tick_count: 0,
            },
        )
    }

    /// The budget the manager was built with.
    #[verifier::when_used_as_spec(spec_budget)]
    pub fn budget(&self) -> (budget: MemoryBudget)
        ensures
            budget == self.spec_budget(),
    {
        self.budget
    }

    /// The policy the manager was built with.
    #[verifier::when_used_as_spec(spec_policy)]
    pub fn policy(&self) -> (policy: MemoryControlPolicy)
        ensures
            policy == self.spec_policy(),
    {
        self.memory_control_policy
    }

    /// The state as the last tick left it.
    #[verifier::when_used_as_spec(spec_state)]
    pub fn state(&self) -> (state: ControllerState)
        ensures
            state == self.spec_state(),
    {
        ControllerState {
            batch_bytes: self.last_reading.batch_bytes,
            streaming_bytes: self.last_reading.streaming_bytes,
            allocator_bytes: self.last_reading.allocator_bytes,
            watermark_step: self.watermark_step,
            watermark_epoch: self.watermark.current(),
            last_tick_ms: self.last_tick_ms,
        }
    }

    /// Number of ticks so far.
    #[verifier::when_used_as_spec(spec_tick_count)]
    pub fn tick_count(&self) -> (count: u64)
        ensures
            count == self.spec_tick_count(),
    {
        self.tick_count
    }

    /// The watermark epoch published last.
    pub fn watermark_epoch(&self) -> (epoch: u64)
        ensures
            epoch == self.state().watermark_epoch,
    {
        self.watermark.current()
    }

    /// A handle to the shared watermark cell. Caches load the epoch from it;
    /// only the manager stores into it, on every tick.
    pub fn get_watermark_epoch(&self) -> (handle: Arc<AtomicU64>)
        ensures
            handle == self.watermark_cell(),
    {
        self.watermark.handle()
    }

    /// Runs one tick at wall-clock time `now_ms`: decides on `reading` and
    /// the running `tasks`, advances and publishes the watermark, records
    /// what was observed, and returns what is left for the driver to do.
    pub fn tick(&mut self, now_ms: u64, reading: UsageReading, tasks: &Vec<BatchTask>) -> (outcome:
        TickOutcome)
        requires
            old(self).wf(),
        ensures
            final(self).wf(),
            final(self).budget() == old(self).budget(),
            final(self).policy() == old(self).policy(),
            final(self).watermark_cell() == old(self).watermark_cell(),
            final(self).state() == next_state(
                old(self).policy(),
                old(self).budget(),
                old(self).state(),
                now_ms,
                reading,
            ),
            final(self).state().watermark_epoch >= old(self).state().watermark_epoch,
            final(self).tick_count() == next_tick_count(old(self).tick_count()),
            outcome.cancel@ == task_ids(
                old(self).policy().cancelled(
                    reading,
                    old(self).budget().total_bytes() as nat,
                    tasks@,
                ),
            ),
            outcome.sustained_pressure == old(self).policy().pressure_sustained(
                reading,
                old(self).budget().total_bytes() as nat,
                tasks@,
            ),
            outcome.metrics == (TickMetrics {
                streaming_bytes: reading.streaming_bytes,
                batch_bytes: reading.batch_bytes,
                allocator_bytes: reading.allocator_bytes,
                watermark_step: final(self).state().watermark_step,
                watermark_epoch: final(self).state().watermark_epoch,
                physical_now_ms: now_ms,
                tick_count: final(self).tick_count(),
            }),
    {
        let state: ControllerState = self.state();
        let decision: PolicyDecision = self.memory_control_policy.decide(
            &self.budget,
            &state,
            &reading,
            tasks,
        );
        self.watermark.advance(decision.step);
        self.watermark_step = decision.step;
        self.last_reading = reading;
        self.last_tick_ms = now_ms;
        if self.tick_count < u64::MAX {
            self.tick_count = self.tick_count + 1;
        }
        TickOutcome {
            cancel: decision.cancel,
            sustained_pressure: decision.sustained_pressure,
            metrics: TickMetrics {
                streaming_bytes: reading.streaming_bytes,
                batch_bytes: reading.batch_bytes,
                allocator_bytes: reading.allocator_bytes,
                watermark_step: self.watermark_step,
                watermark_epoch: self.watermark.current(),
                physical_now_ms: now_ms,
                tick_count: self.tick_count,
            },
        }
    }
}

impl GlobalMemoryManager {
    /// Runs one tick against the table of running batch tasks: takes the
    /// batch usage from the table, ticks, and cancels in the table what the
    /// tick names.
    pub fn run_once(
        &mut self,
        now_ms: u64,
        batch_manager: &mut BatchTaskRegistry,
        streaming: Option<usize>,
        allocator: Option<usize>,
    ) -> (outcome: TickOutcome)
        requires
            old(self).wf(),
        ensures
            final(self).wf(),
            final(self).budget() == old(self).budget(),
            final(self).policy() == old(self).policy(),
            final(self).watermark_cell() == old(self).watermark_cell(),
            final(self).state() == next_state(
                old(self).policy(),
                old(self).budget(),
                old(self).state(),
                now_ms,
                sampled_reading(old(batch_manager)@, streaming, allocator),
            ),
            final(self).tick_count() == next_tick_count(old(self).tick_count()),
            outcome.cancel@ == task_ids(
                old(self).policy().cancelled(
                    sampled_reading(old(batch_manager)@, streaming, allocator),
                    old(self).budget().total_bytes() as nat,
                    old(batch_manager)@,
                ),
            ),
            outcome.sustained_pressure == old(self).policy().pressure_sustained(
                sampled_reading(old(batch_manager)@, streaming, allocator),
                old(self).budget().total_bytes() as nat,
                old(batch_manager)@,
            ),
            final(batch_manager)@ == without_all(old(batch_manager)@, outcome.cancel@),
            outcome.metrics == (TickMetrics {
                streaming_bytes: probe_value(streaming),
                batch_bytes: sampled_reading(old(batch_manager)@, streaming, allocator).batch_bytes,
                allocator_bytes: probe_value(allocator),
                watermark_step: final(self).state().watermark_step,
                watermark_epoch: final(self).state().watermark_epoch,
                physical_now_ms: now_ms,
                tick_count: final(self).tick_count(),
            }),
    {
        let reading: UsageReading = UsageReading::from_samples(
            Some(batch_manager.snapshot_usage()),
            streaming,
            allocator,
        );
        let outcome: TickOutcome = self.tick(now_ms, reading, batch_manager.running());
        batch_manager.cancel_all(&outcome.cancel);
        outcome
    }
}

/// Whatever is read, a tick leaves the watermark where it was or moves it
/// forward.
pub proof fn lemma_tick_never_lowers_watermark(
    policy: MemoryControlPolicy,
    budget: MemoryBudget,
    state: ControllerState,
    now_ms: u64,
    reading: UsageReading,
)
    ensures
        next_state(policy, budget, state, now_ms, reading).watermark_epoch >= state.watermark_epoch,
{
}

/// Monotonicity: over any run of ticks, whatever they read, the watermark
/// after more ticks is at least the watermark after fewer.
pub proof fn lemma_run_never_lowers_watermark(
    policy: MemoryControlPolicy,
    budget: MemoryBudget,
    state: ControllerState,
    ticks: Seq<TickInput>,
    earlier: int,
    later: int,
)
    requires
        0 <= earlier <= later <= ticks.len(),
    ensures
        state_after(policy, budget, state, ticks.take(earlier)).watermark_epoch <= state_after(
            policy,
            budget,
            state,
            ticks.take(later),
        ).watermark_epoch,
    decreases later - earlier,
{
    if earlier < later {
        lemma_run_never_lowers_watermark(policy, budget, state, ticks, earlier, later - 1);
        assert(ticks.take(later).drop_last() == ticks.take(later - 1));
    }
}

/// The step stays within what the policy admits over any run of ticks that
/// starts within it.
pub proof fn lemma_run_keeps_step_bounded(
    policy: MemoryControlPolicy,
    budget: MemoryBudget,
    state: ControllerState,
    ticks: Seq<TickInput>,
)
    requires
        state.watermark_step <= policy.max_step(),
    ensures
        state_after(policy, budget, state, ticks).watermark_step <= policy.max_step(),
    decreases ticks.len(),
{
    if ticks.len() > 0 {
        lemma_run_keeps_step_bounded(policy, budget, state, ticks.drop_last());
    }
}

/// Under the threshold policy the step of the manager follows the policy
/// tick by tick: after a run of ticks it is the step the policy reaches on
/// the readings of the run, and the usage last observed is that of the last
/// tick.
pub proof fn lemma_run_follows_policy(
    policy: ControlPolicy,
    budget: MemoryBudget,
    state: ControllerState,
    ticks: Seq<TickInput>,
)
    ensures
        state_after(MemoryControlPolicy::Threshold(policy), budget, state, ticks).watermark_step
            == policy.step_after(
            state.watermark_step,
            state.observed(),
            readings_of(ticks),
            budget.total_bytes() as nat,
        ),
        state_after(MemoryControlPolicy::Threshold(policy), budget, state, ticks).observed()
            == ControlPolicy::reading_before(
            state.observed(),
            readings_of(ticks),
            ticks.len() as int,
        ),
    decreases ticks.len(),
{
    if ticks.len() > 0 {
        let earlier = ticks.drop_last();
        lemma_run_follows_policy(policy, budget, state, earlier);
        assert(readings_of(ticks).drop_last() == readings_of(earlier));
        assert(readings_of(ticks).last() == ticks.last().reading);
        assert(ControlPolicy::reading_before(
            state.observed(),
            readings_of(ticks),
            ticks.len() - 1,
        ) == ControlPolicy::reading_before(
            state.observed(),
            readings_of(earlier),
            earlier.len() as int,
        ));
    }
}

/// Recovery of the manager: over a run of ticks each of which is one of
/// recovery, the step goes down by one per tick until it is zero, and stays
/// there.
pub proof fn lemma_recovery_run_lowers_step(
    policy: ControlPolicy,
    budget: MemoryBudget,
    state: ControllerState,
    ticks: Seq<TickInput>,
)
    requires
        state.watermark_step <= policy.max_step(),
        forall|i: int|
            0 <= i < ticks.len() ==> policy.is_recovering(
                ControlPolicy::reading_before(state.observed(), readings_of(ticks), i),
                (#[trigger] ticks[i]).reading,
                budget.total_bytes() as nat,
            ),
    ensures
        state_after(MemoryControlPolicy::Threshold(policy), budget, state, ticks).watermark_step
            == if state.watermark_step >= ticks.len() {
            state.watermark_step - ticks.len()
        } else {
            0
        },
{
    let readings = readings_of(ticks);
    assert forall|i: int| 0 <= i < readings.len() implies policy.is_recovering(
        ControlPolicy::reading_before(state.observed(), readings, i),
        #[trigger] readings[i],
        budget.total_bytes() as nat,
    ) by {
        assert(readings[i] == ticks[i].reading);
    }
    policy.lemma_recovery_run_decays(
        state.watermark_step,
        state.observed(),
        readings,
        budget.total_bytes() as nat,
    );
    lemma_run_follows_policy(policy, budget, state, ticks);
}

/// At step zero a tick moves the watermark by the base distance only.
pub proof fn lemma_idle_tick_advances_by_base_delta(
    policy: MemoryControlPolicy,
    budget: MemoryBudget,
    state: ControllerState,
    now_ms: u64,
    reading: UsageReading,
)
    requires
        policy.next_step(
            state.watermark_step,
            state.observed(),
            reading,
            budget.total_bytes() as nat,
        ) == 0,
        state.watermark_epoch + base_epoch_delta(budget.tick_interval_ms()) <= u64::MAX,
    ensures
        next_state(policy, budget, state, now_ms, reading).watermark_epoch == state.watermark_epoch
            + base_epoch_delta(budget.tick_interval_ms()),
{
    let base = base_epoch_delta(budget.tick_interval_ms());
    assert(base * 1 == base) by (nonlinear_arith);
}

/// Whatever the policy, a tick that reads nothing does not raise the step
/// and cancels nothing.
pub proof fn lemma_blank_tick_is_safe(
    policy: MemoryControlPolicy,
    budget: MemoryBudget,
    state: ControllerState,
    now_ms: u64,
    reading: UsageReading,
    tasks: Seq<BatchTask>,
)
    requires
        reading.is_blank(),
    ensures
        next_state(policy, budget, state, now_ms, reading).watermark_step <= state.watermark_step,
        policy.cancelled(reading, budget.total_bytes() as nat, tasks) == Seq::<BatchTask>::empty(),
{
    policy.lemma_blank_reading_is_safe(
        state.watermark_step,
        state.observed(),
        reading,
        budget.total_bytes() as nat,
        tasks,
    );
}

} // verus!
