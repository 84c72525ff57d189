//! The decision taken every tick: how far to raise or lower the watermark
//! step, and which batch tasks to cancel.
//!
//! Three thresholds, given as fractions of the budget in per mille, divide
//! the usage into four levels. Below `low` the step decays by one per tick.
//! From `low` up to `soft` it decays as long as the largest signal keeps
//! falling and is held otherwise, so that it does not swing around a threshold. From `soft`
//! up to `hard` it grows by one per tick; from `hard` on it is at its maximum.
//! Batch, streaming and allocator-reported memory are each measured on their
//! own, and the worst of the three levels drives the step. Batch tasks are
//! cancelled only when batch and streaming memory together reach `hard` and
//! batch memory is more than half of that.

use vstd::prelude::*;
use crate::budget::{ConfigError, MemoryBudget};
use crate::cancel::{
    below_limit, cancel_order, cancelled_tasks, is_below_limit,
    lemma_one_cancellation_when_largest_suffices, plan_cancellations, projected_usage, task_ids,
    usage_after, CancelPlan,
};
use crate::state::ControllerState;
use crate::usage::{BatchTask, UsageReading};

verus! {

/// How close one usage signal is to the budget.
#[derive(Debug, Clone, Copy, PartialEq, Eq, Structural)]
pub enum PressureLevel {
    /// Below the low threshold, or nothing read.
    Low,
    /// At or above the low threshold, below the soft one.
    Steady,
    /// At or above the soft threshold, below the hard one.
    Soft,
    /// At or above the hard threshold.
    Hard,
}

impl PressureLevel {
    /// Position of the level, from 0 for `Low` to 3 for `Hard`.
    pub open spec fn severity(self) -> nat {
        match self {
            PressureLevel::Low => 0,
            PressureLevel::Steady => 1,
            PressureLevel::Soft => 2,
            PressureLevel::Hard => 3,
        }
    }

    /// The more severe of two levels.
    pub open spec fn worse_of(self, other: PressureLevel) -> PressureLevel {
        if self.severity() >= other.severity() {
            self
        } else {
            other
        }
    }

    /// Returns the more severe of two levels.
    pub fn or_worse(self, other: PressureLevel) -> (worse: PressureLevel)
        ensures
            worse == self.worse_of(other),
    {
        match (self, other) {
            (PressureLevel::Hard, _) => PressureLevel::Hard,
            (_, PressureLevel::Hard) => PressureLevel::Hard,
            (PressureLevel::Soft, _) => PressureLevel::Soft,
            (_, PressureLevel::Soft) => PressureLevel::Soft,
            (PressureLevel::Steady, _) => PressureLevel::Steady,
            (_, PressureLevel::Steady) => PressureLevel::Steady,
            (PressureLevel::Low, PressureLevel::Low) => PressureLevel::Low,
        }
    }
}

/// A fraction of the budget, as a bound in thousandths of a byte.
pub open spec fn scaled_limit(permille: nat, budget: nat) -> nat {
    permille * budget
}

/// Output of one tick of the policy.
#[derive(Debug)]
pub struct PolicyDecision {
    /// The watermark step from this tick on.
    pub step: u32,
    /// The new step minus the step of the tick before.
    pub step_delta: i64,
    /// Batch tasks to cancel, in the order of cancellation.
    pub cancel: Vec<u64>,
    /// Set when the usage stays at or above the hard threshold even after
    /// every cancellation asked for.
    pub sustained_pressure: bool,
}

/// The three-threshold policy with a linear ramp of the watermark step.
#[derive(Debug, Clone, Copy, PartialEq, Eq)]
pub struct ControlPolicy {
    low_permille: u32,
    soft_permille: u32,
    hard_permille: u32,
    max_step: u32,
}

impl ControlPolicy {
    pub closed spec fn spec_low_permille(&self) -> u32 {
        self.low_permille
    }

    pub closed spec fn spec_soft_permille(&self) -> u32 {
        self.soft_permille
    }

    pub closed spec fn spec_hard_permille(&self) -> u32 {
        self.hard_permille
    }

    pub closed spec fn spec_max_step(&self) -> u32 {
        self.max_step
    }

    /// The thresholds are strictly ascending.
    #[verifier::type_invariant]
    pub open spec fn wf(&self) -> bool {
        self.spec_low_permille() < self.spec_soft_permille() < self.spec_hard_permille()
    }

    /// Builds a policy from its thresholds, in per mille of the budget, and
    /// the largest step it may reach. Thresholds that are not strictly
    /// ascending are refused.
    pub fn new(low_permille: u32, soft_permille: u32, hard_permille: u32, max_step: u32) -> (made:
        Result<ControlPolicy, ConfigError>)
        ensures
            made is Err <==> (low_permille >= soft_permille || soft_permille >= hard_permille),
            made matches Err(e) ==> e == ConfigError::ThresholdsOutOfOrder,
            made matches Ok(policy) ==> {
                &&& policy.wf()
                &&& policy.spec_low_permille() == low_permille
                &&& policy.spec_soft_permille() == soft_permille
                &&& policy.spec_hard_permille() == hard_permille
                &&& policy.spec_max_step() == max_step
            },
    {
        if low_permille >= soft_permille || soft_permille >= hard_permille {
            return Err(ConfigError::ThresholdsOutOfOrder);
        }
        Ok(ControlPolicy { low_permille, soft_permille, hard_permille, max_step })
    }

    #[verifier::when_used_as_spec(spec_low_permille)]
    pub fn low_permille(&self) -> (permille: u32)
        ensures
            permille == self.spec_low_permille(),
    {
        self.low_permille
    }

    #[verifier::when_used_as_spec(spec_soft_permille)]
    pub fn soft_permille(&self) -> (permille: u32)
        ensures
            permille == self.spec_soft_permille(),
    {
        self.soft_permille
    }

    #[verifier::when_used_as_spec(spec_hard_permille)]
    pub fn hard_permille(&self) -> (permille: u32)
        ensures
            permille == self.spec_hard_permille(),
    {
        self.hard_permille
    }

    #[verifier::when_used_as_spec(spec_max_step)]
    pub fn max_step(&self) -> (step: u32)
        ensures
            step == self.spec_max_step(),
    {
        self.max_step
    }

    /// The level of one signal of `bytes` against a budget of `budget` bytes.
    /// A signal of zero is no pressure, whatever the thresholds.
    pub open spec fn level_of(&self, bytes: nat, budget: nat) -> PressureLevel {
        if bytes == 0 || below_limit(bytes, scaled_limit(self.low_permille() as nat, budget)) {
            PressureLevel::Low
        } else if below_limit(bytes, scaled_limit(self.soft_permille() as nat, budget)) {
            PressureLevel::Steady
        } else if below_limit(bytes, scaled_limit(self.hard_permille() as nat, budget)) {
            PressureLevel::Soft
        } else {
            PressureLevel::Hard
        }
    }

    /// The worst level among batch, streaming and allocator-reported memory.
    pub open spec fn worst_level(&self, reading: UsageReading, budget: nat) -> PressureLevel {
        self.level_of(reading.batch_bytes as nat, budget).worse_of(
            self.level_of(reading.streaming_bytes as nat, budget),
        ).worse_of(self.level_of(reading.allocator_bytes as nat, budget))
    }

    /// Whether batch and streaming memory together are at or above the hard
    /// threshold while batch memory is more than half of them.
    pub open spec fn overloaded_by_batch(&self, reading: UsageReading, budget: nat) -> bool {
        &&& !below_limit(reading.total(), scaled_limit(self.hard_permille() as nat, budget))
        &&& 2 * reading.batch_bytes > reading.total()
    }

    /// The step of the tick before, as far as the policy admits it.
    pub open spec fn held_step(&self, prev: u32) -> u32 {
        if prev > self.max_step() {
            self.max_step()
        } else {
            prev
        }
    }

    /// A step one lower, as long as there is one.
    pub open spec fn decayed(step: u32) -> u32 {
        if step > 0 {
            (step - 1) as u32
        } else {
            0
        }
    }

    /// Whether a tick is one of recovery: batch work does not overload the
    /// budget, and either every signal is below the low threshold, or every
    /// signal is below the soft threshold and the usage has fallen since the
    /// tick before, which read `last`.
    pub open spec fn is_recovering(
        &self,
        last: UsageReading,
        reading: UsageReading,
        budget: nat,
    ) -> bool {
        &&& !self.overloaded_by_batch(reading, budget)
        &&& match self.worst_level(reading, budget) {
            PressureLevel::Low => true,
            PressureLevel::Steady => reading.has_fallen_from(last),
            _ => false,
        }
    }

    /// The step after a tick that read `reading`, where the tick before left
    /// the step at `prev` and read `last`.
    pub open spec fn next_step(
        &self,
        prev: u32,
        last: UsageReading,
        reading: UsageReading,
        budget: nat,
    ) -> u32 {
        let held = self.held_step(prev);
        if self.overloaded_by_batch(reading, budget) {
            self.max_step()
        } else {
            match self.worst_level(reading, budget) {
                PressureLevel::Hard => self.max_step(),
                PressureLevel::Soft => if held < self.max_step() {
                    (held + 1) as u32
                } else {
                    held
                },
                PressureLevel::Steady => if reading.has_fallen_from(last) {
                    ControlPolicy::decayed(held)
                } else {
                    held
                },
                PressureLevel::Low => ControlPolicy::decayed(held),
            }
        }
    }

    /// The tasks cancelled by a tick that read `reading` with `tasks` running.
    pub open spec fn cancelled(&self, reading: UsageReading, budget: nat, tasks: Seq<BatchTask>) -> Seq<
        BatchTask,
    > {
        if self.overloaded_by_batch(reading, budget) {
            cancelled_tasks(
                tasks,
                reading.total(),
                scaled_limit(self.hard_permille() as nat, budget),
            )
        } else {
            Seq::empty()
        }
    }

    /// Whether the usage is expected to stay at or above the hard threshold
    /// even after the cancellations.
    pub open spec fn pressure_sustained(
        &self,
        reading: UsageReading,
        budget: nat,
        tasks: Seq<BatchTask>,
    ) -> bool {
        &&& self.overloaded_by_batch(reading, budget)
        &&& !below_limit(
            projected_usage(self.cancelled(reading, budget, tasks), reading.total()),
            scaled_limit(self.hard_permille() as nat, budget),
        )
    }

    /// Classifies one signal.
    pub fn classify(&self, bytes: usize, budget: &MemoryBudget) -> (level: PressureLevel)
        ensures
            level == self.level_of(bytes as nat, budget.total_bytes() as nat),
    {
        let total: usize = budget.total_bytes();
        if bytes == 0 || is_below_limit(bytes as u128, limit_of(self.low_permille, total)) {
            PressureLevel::Low
        } else if is_below_limit(bytes as u128, limit_of(self.soft_permille, total)) {
            PressureLevel::Steady
        } else if is_below_limit(bytes as u128, limit_of(self.hard_permille, total)) {
            PressureLevel::Soft
        } else {
            PressureLevel::Hard
        }
    }

    /// Decides one tick: the next step from the step of `state` and the
    /// levels of `reading`, and the cancellations among `tasks`.
    pub fn decide(
        &self,
        budget: &MemoryBudget,
        state: &ControllerState,
        reading: &UsageReading,
        tasks: &Vec<BatchTask>,
    ) -> (decision: PolicyDecision)
        ensures
            decision.step == self.next_step(
                state.watermark_step,
                state.observed(),
                *reading,
                budget.total_bytes() as nat,
            ),
            decision.step <= self.max_step(),
            decision.step_delta == decision.step - state.watermark_step,
            decision.cancel@ == task_ids(
                self.cancelled(*reading, budget.total_bytes() as nat, tasks@),
            ),
            decision.sustained_pressure == self.pressure_sustained(
                *reading,
                budget.total_bytes() as nat,
                tasks@,
            ),
    {
        let total: usize = budget.total_bytes();
        let hard_limit: u128 = limit_of(self.hard_permille, total);
        let used: u128 = reading.batch_bytes as u128 + reading.streaming_bytes as u128;
        let overloaded: bool = !is_below_limit(used, hard_limit) && reading.batch_bytes
            > reading.streaming_bytes;
        let held: u32 = if state.watermark_step > self.max_step {
            self.max_step
        } else {
            state.watermark_step
        };
        let step: u32 = if overloaded {
            self.max_step
        } else {
            let worst: PressureLevel = self.classify(reading.batch_bytes, budget).or_worse(
                self.classify(reading.streaming_bytes, budget),
            ).or_worse(self.classify(reading.allocator_bytes, budget));
            match worst {
                PressureLevel::Hard => self.max_step,
                PressureLevel::Soft => if held < self.max_step {
                    held + 1
                } else {
                    held
                },
                PressureLevel::Steady => if reading.fell_from(&state.last_reading()) {
                    decay(held)
                } else {
                    held
                },
                PressureLevel::Low => decay(held),
            }
        };
        let step_delta: i64 = step as i64 - state.watermark_step as i64;
        if overloaded {
            let plan: CancelPlan = plan_cancellations(tasks, used, hard_limit);
            let sustained: bool = !is_below_limit(plan.projected_usage, hard_limit);
            PolicyDecision { step, step_delta, cancel: plan.ids, sustained_pressure: sustained }
        } else {
            let cancel: Vec<u64> = Vec::new();
            assert(task_ids(Seq::<BatchTask>::empty()) == Seq::<u64>::empty());
            PolicyDecision { step, step_delta, cancel, sustained_pressure: false }
        }
    }
}

impl ControlPolicy {
    /// Whether a reading shows no pressure at all: every signal is below the
    /// low threshold and batch work does not overload the budget.
    pub open spec fn is_calm(&self, reading: UsageReading, budget: nat) -> bool {
        &&& self.worst_level(reading, budget) == PressureLevel::Low
        &&& !self.overloaded_by_batch(reading, budget)
    }

    /// The reading of the tick before the `i`-th of a run, where the tick
    /// before the run read `last`.
    pub open spec fn reading_before(last: UsageReading, readings: Seq<UsageReading>, i: int) -> UsageReading {
        if i == 0 {
            last
        } else {
            readings[i - 1]
        }
    }

    /// The step after a run of ticks that read `readings` one after the
    /// other, where the tick before the run left the step at `start` and
    /// read `last`.
    pub open spec fn step_after(
        &self,
        start: u32,
        last: UsageReading,
        readings: Seq<UsageReading>,
        budget: nat,
    ) -> u32
        decreases readings.len(),
    {
        if readings.len() == 0 {
            start
        } else {
            self.next_step(
                self.step_after(start, last, readings.drop_last(), budget),
                ControlPolicy::reading_before(last, readings, readings.len() - 1),
                readings.last(),
                budget,
            )
        }
    }

    /// The step never leaves the range from zero to the maximal step.
    pub proof fn lemma_step_is_bounded(
        self,
        prev: u32,
        last: UsageReading,
        reading: UsageReading,
        budget: nat,
    )
        ensures
            self.next_step(prev, last, reading, budget) <= self.max_step(),
    {
    }

    /// A reading without any data never raises the response: the step does
    /// not grow, and nothing is cancelled.
    pub proof fn lemma_blank_reading_is_safe(
        self,
        prev: u32,
        last: UsageReading,
        reading: UsageReading,
        budget: nat,
        tasks: Seq<BatchTask>,
    )
        requires
            reading.is_blank(),
        ensures
            self.next_step(prev, last, reading, budget) <= prev,
            self.cancelled(reading, budget, tasks) == Seq::<BatchTask>::empty(),
            !self.pressure_sustained(reading, budget, tasks),
    {
    }

    /// The worst level is the level of the largest signal.
    pub proof fn lemma_worst_level_is_level_of_peak(self, reading: UsageReading, budget: nat)
        requires
            self.wf(),
        ensures
            self.worst_level(reading, budget) == self.level_of(reading.peak() as nat, budget),
    {
        let low = self.low_permille() as nat;
        let soft = self.soft_permille() as nat;
        let hard = self.hard_permille() as nat;
        assert(low * budget <= soft * budget <= hard * budget) by (nonlinear_arith)
            requires
                low <= soft <= hard,
        ;
    }

    /// A signal that is missing adds no pressure of its own: the worst level
    /// is that of the other signals.
    pub proof fn lemma_missing_signal_adds_no_pressure(self, reading: UsageReading, budget: nat)
        ensures
            reading.allocator_bytes == 0 ==> self.worst_level(reading, budget) == self.level_of(
                reading.batch_bytes as nat,
                budget,
            ).worse_of(self.level_of(reading.streaming_bytes as nat, budget)),
            reading.batch_bytes == 0 ==> self.worst_level(reading, budget) == self.level_of(
                reading.streaming_bytes as nat,
                budget,
            ).worse_of(self.level_of(reading.allocator_bytes as nat, budget)),
            reading.streaming_bytes == 0 ==> self.worst_level(reading, budget) == self.level_of(
                reading.batch_bytes as nat,
                budget,
            ).worse_of(self.level_of(reading.allocator_bytes as nat, budget)),
    {
    }

    /// Usage below the low threshold, for batch and streaming together and
    /// for the allocator, is calm.
    pub proof fn lemma_below_low_is_calm(self, reading: UsageReading, budget: nat)
        requires
            self.wf(),
            below_limit(reading.total(), scaled_limit(self.low_permille() as nat, budget)),
            reading.allocator_bytes == 0 || below_limit(
                reading.allocator_bytes as nat,
                scaled_limit(self.low_permille() as nat, budget),
            ),
        ensures
            self.is_calm(reading, budget),
    {
        let low = self.low_permille() as nat;
        let hard = self.hard_permille() as nat;
        assert(low * budget <= hard * budget) by (nonlinear_arith)
            requires
                low <= hard,
        ;
    }

    /// Usage whose largest signal lies below the soft threshold and has
    /// fallen since the tick before is recovery, unless batch work overloads
    /// the budget.
    pub proof fn lemma_falling_below_soft_is_recovery(
        self,
        last: UsageReading,
        reading: UsageReading,
        budget: nat,
    )
        requires
            self.wf(),
            below_limit(reading.peak() as nat, scaled_limit(self.soft_permille() as nat, budget)),
            reading.has_fallen_from(last),
            !self.overloaded_by_batch(reading, budget),
        ensures
            self.is_recovering(last, reading, budget),
    {
        self.lemma_worst_level_is_level_of_peak(reading, budget);
    }

    /// Recovery: a tick of recovery lowers a positive step by exactly one
    /// and leaves a step of zero at zero.
    pub proof fn lemma_recovery_tick_decays(
        self,
        prev: u32,
        last: UsageReading,
        reading: UsageReading,
        budget: nat,
    )
        requires
            self.is_recovering(last, reading, budget),
        ensures
            self.next_step(prev, last, reading, budget) == ControlPolicy::decayed(
                self.held_step(prev),
            ),
            prev > 0 ==> self.next_step(prev, last, reading, budget) < prev,
            prev == 0 ==> self.next_step(prev, last, reading, budget) == 0,
    {
    }

    /// Recovery over several ticks: as long as every tick is one of recovery
    /// the step goes down by one per tick until it is zero, and stays there.
    pub proof fn lemma_recovery_run_decays(
        self,
        start: u32,
        last: UsageReading,
        readings: Seq<UsageReading>,
        budget: nat,
    )
        requires
            start <= self.max_step(),
            forall|i: int|
                0 <= i < readings.len() ==> self.is_recovering(
                    ControlPolicy::reading_before(last, readings, i),
                    #[trigger] readings[i],
                    budget,
                ),
        ensures
            self.step_after(start, last, readings, budget) == if start >= readings.len() {
                start - readings.len()
            } else {
                0
            },
        decreases readings.len(),
    {
        if readings.len() > 0 {
            let earlier = readings.drop_last();
            assert forall|i: int| 0 <= i < earlier.len() implies self.is_recovering(
                ControlPolicy::reading_before(last, earlier, i),
                #[trigger] earlier[i],
                budget,
            ) by {
                assert(earlier[i] == readings[i]);
                assert(ControlPolicy::reading_before(last, earlier, i)
                    == ControlPolicy::reading_before(last, readings, i));
            }
            self.lemma_recovery_run_decays(start, last, earlier, budget);
            let n = readings.len() - 1;
            assert(self.is_recovering(
                ControlPolicy::reading_before(last, readings, n),
                readings[n],
                budget,
            ));
            self.lemma_recovery_tick_decays(
                self.step_after(start, last, earlier, budget),
                ControlPolicy::reading_before(last, readings, n),
                readings.last(),
                budget,
            );
        }
    }

    /// Between the low and the soft threshold the step is held unless the
    /// usage has fallen since the tick before.
    pub proof fn lemma_steady_tick_holds(
        self,
        prev: u32,
        last: UsageReading,
        reading: UsageReading,
        budget: nat,
    )
        requires
            self.worst_level(reading, budget) == PressureLevel::Steady,
            !self.overloaded_by_batch(reading, budget),
            !reading.has_fallen_from(last),
        ensures
            self.next_step(prev, last, reading, budget) == self.held_step(prev),
    {
    }

    /// Between the soft and the hard threshold the step grows by one per
    /// tick until it reaches the maximal step.
    pub proof fn lemma_soft_tick_ramps(
        self,
        prev: u32,
        last: UsageReading,
        reading: UsageReading,
        budget: nat,
    )
        requires
            self.worst_level(reading, budget) == PressureLevel::Soft,
            !self.overloaded_by_batch(reading, budget),
        ensures
            self.held_step(prev) < self.max_step() ==> self.next_step(prev, last, reading, budget)
                == self.held_step(prev) + 1,
            self.held_step(prev) == self.max_step() ==> self.next_step(prev, last, reading, budget)
                == self.max_step(),
    {
    }

    /// At the hard threshold, for any one signal or for batch-dominated
    /// usage as a whole, the step is maximal.
    pub proof fn lemma_hard_tick_is_maximal(
        self,
        prev: u32,
        last: UsageReading,
        reading: UsageReading,
        budget: nat,
    )
        requires
            self.worst_level(reading, budget) == PressureLevel::Hard || self.overloaded_by_batch(
                reading,
                budget,
            ),
        ensures
            self.next_step(prev, last, reading, budget) == self.max_step(),
    {
    }

    /// Tasks are cancelled only when batch work overloads the budget.
    pub proof fn lemma_cancels_only_under_overload(
        self,
        reading: UsageReading,
        budget: nat,
        tasks: Seq<BatchTask>,
    )
        requires
            !self.overloaded_by_batch(reading, budget),
        ensures
            self.cancelled(reading, budget, tasks) == Seq::<BatchTask>::empty(),
            !self.pressure_sustained(reading, budget, tasks),
    {
    }

    /// Minimal cancellation: where batch work overloads the budget and
    /// cancelling the largest task alone brings the usage below the hard
    /// threshold, exactly that task is cancelled.
    pub proof fn lemma_cancels_largest_task_only(
        self,
        reading: UsageReading,
        budget: nat,
        tasks: Seq<BatchTask>,
    )
        requires
            self.overloaded_by_batch(reading, budget),
            tasks.len() > 0,
            cancel_order(tasks)[0].memory_bytes > 0,
            below_limit(
                usage_after(reading.total(), cancel_order(tasks)[0].memory_bytes as nat),
                scaled_limit(self.hard_permille() as nat, budget),
            ),
        ensures
            self.cancelled(reading, budget, tasks) == seq![cancel_order(tasks)[0]],
            task_ids(self.cancelled(reading, budget, tasks)) == seq![cancel_order(tasks)[0].id],
            !self.pressure_sustained(reading, budget, tasks),
    {
        lemma_one_cancellation_when_largest_suffices(
            tasks,
            reading.total(),
            scaled_limit(self.hard_permille() as nat, budget),
        );
    }
}

/// The strategy a controller runs with, chosen when it is built.
#[derive(Debug, Clone, Copy, PartialEq, Eq)]
pub enum MemoryControlPolicy {
    /// No pressure relief: the step stays at zero and nothing is cancelled.
    Disabled,
    /// Pressure relief by thresholds.
    Threshold(ControlPolicy),
}

impl MemoryControlPolicy {
    /// The largest step the strategy may decide on.
    pub open spec fn max_step(&self) -> u32 {
        match self {
            MemoryControlPolicy::Disabled => 0,
            MemoryControlPolicy::Threshold(policy) => policy.max_step(),
        }
    }

    /// The step after a tick that read `reading`, where the tick before left
    /// the step at `prev` and read `last`.
    pub open spec fn next_step(
        &self,
        prev: u32,
        last: UsageReading,
        reading: UsageReading,
        budget: nat,
    ) -> u32 {
        match self {
            MemoryControlPolicy::Disabled => 0,
            MemoryControlPolicy::Threshold(policy) => policy.next_step(prev, last, reading, budget),
        }
    }

    /// The tasks cancelled by a tick that read `reading` with `tasks` running.
    pub open spec fn cancelled(&self, reading: UsageReading, budget: nat, tasks: Seq<BatchTask>) -> Seq<
        BatchTask,
    > {
        match self {
            MemoryControlPolicy::Disabled => Seq::empty(),
            MemoryControlPolicy::Threshold(policy) => policy.cancelled(reading, budget, tasks),
        }
    }

    /// Whether the usage is expected to stay at or above the hard threshold
    /// even after the cancellations.
    pub open spec fn pressure_sustained(
        &self,
        reading: UsageReading,
        budget: nat,
        tasks: Seq<BatchTask>,
    ) -> bool {
        match self {
            MemoryControlPolicy::Disabled => false,
            MemoryControlPolicy::Threshold(policy) => policy.pressure_sustained(
                reading,
                budget,
                tasks,
            ),
        }
    }

    /// Decides one tick with the strategy chosen.
    pub fn decide(
        &self,
        budget: &MemoryBudget,
        state: &ControllerState,
        reading: &UsageReading,
        tasks: &Vec<BatchTask>,
    ) -> (decision: PolicyDecision)
        ensures
            decision.step == self.next_step(
                state.watermark_step,
                state.observed(),
                *reading,
                budget.total_bytes() as nat,
            ),
            decision.step <= self.max_step(),
            decision.step_delta == decision.step - state.watermark_step,
            decision.cancel@ == task_ids(
                self.cancelled(*reading, budget.total_bytes() as nat, tasks@),
            ),
            decision.sustained_pressure == self.pressure_sustained(
                *reading,
                budget.total_bytes() as nat,
                tasks@,
            ),
    {
        match self {
            MemoryControlPolicy::Disabled => {
                let cancel: Vec<u64> = Vec::new();
                assert(task_ids(Seq::<BatchTask>::empty()) == Seq::<u64>::empty());
                PolicyDecision {
                    step: 0,
                    step_delta: 0 - state.watermark_step as i64,
                    cancel,
                    sustained_pressure: false,
                }
            },
            MemoryControlPolicy::Threshold(policy) => policy.decide(budget, state, reading, tasks),
        }
    }

    /// Whatever the strategy, a reading without any data never raises the
    /// response: the step does not grow, and nothing is cancelled.
    pub proof fn lemma_blank_reading_is_safe(
        self,
        prev: u32,
        last: UsageReading,
        reading: UsageReading,
        budget: nat,
        tasks: Seq<BatchTask>,
    )
        requires
            reading.is_blank(),
        ensures
            self.next_step(prev, last, reading, budget) <= prev,
            self.cancelled(reading, budget, tasks) == Seq::<BatchTask>::empty(),
            !self.pressure_sustained(reading, budget, tasks),
    {
    }
}

/// Lowers a step by one, as long as there is one.
fn decay(step: u32) -> (lower: u32)
    ensures
        lower == ControlPolicy::decayed(step),
{
    if step > 0 {
        step - 1
    } else {
        0
    }
}

/// Computes a fraction of the budget as a bound in thousandths of a byte.
fn limit_of(permille: u32, budget: usize) -> (limit: u128)
    ensures
        limit == scaled_limit(permille as nat, budget as nat),
{
    assert(permille * budget <= 0xffff_ffff * 0xffff_ffff_ffff_ffff) by (nonlinear_arith)
        requires
            0 <= permille <= 0xffff_ffff,
            0 <= budget <= 0xffff_ffff_ffff_ffff,
    ;
    permille as u128 * budget as u128
}

} // verus!
