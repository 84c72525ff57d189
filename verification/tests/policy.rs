use memory_control::budget::{ConfigError, MemoryBudget};
use memory_control::policy::{ControlPolicy, MemoryControlPolicy, PressureLevel};
use memory_control::state::ControllerState;
use memory_control::usage::{BatchTask, UsageReading};

const MIB: usize = 1 << 20;
const MAX_STEP: u32 = 5;

fn budget() -> MemoryBudget {
    MemoryBudget::new(1000 * MIB, 100).unwrap()
}

fn policy() -> ControlPolicy {
    ControlPolicy::new(700, 900, 950, MAX_STEP).unwrap()
}

fn at_step(step: u32) -> ControllerState {
    let mut state = ControllerState::new();
    state.watermark_step = step;
    state
}

fn reading(batch: usize, streaming: usize, allocator: usize) -> UsageReading {
    UsageReading {
        batch_bytes: batch * MIB,
        streaming_bytes: streaming * MIB,
        allocator_bytes: allocator * MIB,
    }
}

fn task(id: u64, mib: usize, elapsed_ms: u64) -> BatchTask {
    BatchTask { id, memory_bytes: mib * MIB, elapsed_ms }
}

#[test]
fn thresholds_must_ascend_strictly() {
    assert_eq!(ControlPolicy::new(900, 900, 950, 1).err(), Some(ConfigError::ThresholdsOutOfOrder));
    assert_eq!(ControlPolicy::new(901, 900, 950, 1).err(), Some(ConfigError::ThresholdsOutOfOrder));
    assert_eq!(ControlPolicy::new(700, 950, 950, 1).err(), Some(ConfigError::ThresholdsOutOfOrder));
    assert_eq!(ControlPolicy::new(700, 951, 950, 1).err(), Some(ConfigError::ThresholdsOutOfOrder));
    assert_eq!(ControlPolicy::new(950, 900, 700, 1).err(), Some(ConfigError::ThresholdsOutOfOrder));
    assert_eq!(ControlPolicy::new(0, 0, 0, 1).err(), Some(ConfigError::ThresholdsOutOfOrder));
    assert!(ControlPolicy::new(0, 1, 2, 0).is_ok());
}

#[test]
fn policy_keeps_what_it_was_built_with() {
    let p = policy();
    assert_eq!(p.low_permille(), 700);
    assert_eq!(p.soft_permille(), 900);
    assert_eq!(p.hard_permille(), 950);
    assert_eq!(p.max_step(), MAX_STEP);
}

#[test]
fn levels_follow_the_thresholds() {
    let p = policy();
    let b = budget();
    assert_eq!(p.classify(0, &b), PressureLevel::Low);
    assert_eq!(p.classify(700 * MIB - 1, &b), PressureLevel::Low);
    assert_eq!(p.classify(700 * MIB, &b), PressureLevel::Steady);
    assert_eq!(p.classify(900 * MIB - 1, &b), PressureLevel::Steady);
    assert_eq!(p.classify(900 * MIB, &b), PressureLevel::Soft);
    assert_eq!(p.classify(950 * MIB - 1, &b), PressureLevel::Soft);
    assert_eq!(p.classify(950 * MIB, &b), PressureLevel::Hard);
    assert_eq!(p.classify(usize::MAX, &b), PressureLevel::Hard);
}

#[test]
fn zero_signal_is_low_even_with_a_zero_threshold() {
    let p = ControlPolicy::new(0, 500, 900, 3).unwrap();
    let b = budget();
    assert_eq!(p.classify(0, &b), PressureLevel::Low);
    assert_eq!(p.classify(1, &b), PressureLevel::Steady);
}

#[test]
fn worse_level_wins() {
    assert_eq!(PressureLevel::Low.or_worse(PressureLevel::Low), PressureLevel::Low);
    assert_eq!(PressureLevel::Low.or_worse(PressureLevel::Steady), PressureLevel::Steady);
    assert_eq!(PressureLevel::Soft.or_worse(PressureLevel::Steady), PressureLevel::Soft);
    assert_eq!(PressureLevel::Soft.or_worse(PressureLevel::Hard), PressureLevel::Hard);
    assert_eq!(PressureLevel::Hard.or_worse(PressureLevel::Low), PressureLevel::Hard);
}

#[test]
fn blank_reading_never_raises_the_step() {
    let p = policy();
    let b = budget();
    let tasks = vec![task(1, 900, 10)];
    for prev in 0..=MAX_STEP + 2 {
        let d = p.decide(&b, &at_step(prev), &UsageReading::zero(), &tasks);
        assert!(d.step <= prev);
        assert!(d.step_delta <= 0);
        assert!(d.cancel.is_empty());
        assert!(!d.sustained_pressure);
    }
}

#[test]
fn blank_reading_is_safe_when_disabled() {
    let b = budget();
    let d = MemoryControlPolicy::Disabled.decide(&b, &at_step(3), &UsageReading::zero(), &vec![]);
    assert_eq!(d.step, 0);
    assert_eq!(d.step_delta, -3);
    assert!(d.cancel.is_empty());
}

#[test]
fn disabled_policy_does_nothing_under_load() {
    let b = budget();
    let tasks = vec![task(1, 900, 10)];
    let d = MemoryControlPolicy::Disabled.decide(&b, &at_step(0), &reading(900, 90, 990), &tasks);
    assert_eq!(d.step, 0);
    assert_eq!(d.step_delta, 0);
    assert!(d.cancel.is_empty());
    assert!(!d.sustained_pressure);
}

#[test]
fn calm_ticks_decay_by_one_down_to_zero() {
    let p = policy();
    let b = budget();
    let mut state = at_step(3);
    let mut seen = Vec::new();
    for _ in 0..5 {
        let d = p.decide(&b, &state, &reading(0, 400, 0), &vec![]);
        seen.push((d.step, d.step_delta));
        state.watermark_step = d.step;
    }
    assert_eq!(seen, vec![(2, -1), (1, -1), (0, -1), (0, 0), (0, 0)]);
}

#[test]
fn steady_band_holds_the_step() {
    let p = policy();
    let b = budget();
    let d = p.decide(&b, &at_step(3), &reading(0, 800, 0), &vec![]);
    assert_eq!(d.step, 3);
    assert_eq!(d.step_delta, 0);
    let d = p.decide(&b, &at_step(0), &reading(0, 700, 0), &vec![]);
    assert_eq!(d.step, 0);
}

#[test]
fn steady_band_decays_while_usage_falls() {
    let p = policy();
    let b = budget();
    let mut state = at_step(3);
    state.streaming_bytes = 850 * MIB;
    let d = p.decide(&b, &state, &reading(0, 800, 0), &vec![]);
    assert_eq!((d.step, d.step_delta), (2, -1));
    // Flat usage holds the step.
    let d = p.decide(&b, &state, &reading(0, 850, 0), &vec![]);
    assert_eq!((d.step, d.step_delta), (3, 0));
    // So does usage that rises, in whichever signal its peak lies.
    let d = p.decide(&b, &state, &reading(0, 860, 0), &vec![]);
    assert_eq!((d.step, d.step_delta), (3, 0));
    let d = p.decide(&b, &state, &reading(0, 800, 860), &vec![]);
    assert_eq!((d.step, d.step_delta), (3, 0));
    // A smaller signal may grow as long as the peak falls.
    let d = p.decide(&b, &state, &reading(100, 800, 0), &vec![]);
    assert_eq!((d.step, d.step_delta), (2, -1));
}

#[test]
fn step_decreases_every_tick_of_a_gradual_recovery() {
    let p = policy();
    let b = budget();
    let mut state = at_step(0);
    // At the soft threshold the step still ramps.
    for _ in 0..4 {
        let r = reading(0, 900, 0);
        let d = p.decide(&b, &state, &r, &vec![]);
        state.watermark_step = d.step;
        state.streaming_bytes = r.streaming_bytes;
    }
    assert_eq!(state.watermark_step, 4);
    // From there the usage drops tick by tick to below the low threshold.
    let mut seen = Vec::new();
    for streaming in [880, 820, 760, 710, 690, 500, 499] {
        let r = reading(0, streaming, 0);
        let d = p.decide(&b, &state, &r, &vec![]);
        seen.push(d.step);
        state.watermark_step = d.step;
        state.streaming_bytes = r.streaming_bytes;
    }
    assert_eq!(seen, vec![3, 2, 1, 0, 0, 0, 0]);
}

#[test]
fn usage_falls_when_its_largest_signal_shrinks() {
    let earlier = reading(10, 20, 30);
    assert_eq!(earlier.largest_signal(), 30 * MIB);
    assert_eq!(reading(40, 20, 30).largest_signal(), 40 * MIB);
    assert_eq!(reading(10, 50, 30).largest_signal(), 50 * MIB);
    assert!(reading(10, 20, 29).fell_from(&earlier));
    assert!(reading(29, 29, 29).fell_from(&earlier));
    assert!(reading(0, 0, 0).fell_from(&earlier));
    assert!(!reading(10, 20, 30).fell_from(&earlier));
    assert!(!reading(9, 19, 30).fell_from(&earlier));
    assert!(!reading(31, 0, 0).fell_from(&earlier));
    assert!(!UsageReading::zero().fell_from(&UsageReading::zero()));
}

#[test]
fn soft_band_ramps_by_one_up_to_the_maximum() {
    let p = policy();
    let b = budget();
    let mut state = at_step(MAX_STEP - 2);
    let mut seen = Vec::new();
    for _ in 0..4 {
        let d = p.decide(&b, &state, &reading(0, 920, 0), &vec![]);
        seen.push((d.step, d.step_delta));
        state.watermark_step = d.step;
    }
    assert_eq!(
        seen,
        vec![(MAX_STEP - 1, 1), (MAX_STEP, 1), (MAX_STEP, 0), (MAX_STEP, 0)]
    );
}

#[test]
fn hard_streaming_usage_jumps_to_the_maximum_without_cancelling() {
    let p = policy();
    let b = budget();
    let tasks = vec![task(1, 10, 10)];
    let d = p.decide(&b, &at_step(0), &reading(10, 960, 0), &tasks);
    assert_eq!(d.step, MAX_STEP);
    assert_eq!(d.step_delta, MAX_STEP as i64);
    assert!(d.cancel.is_empty());
    assert!(!d.sustained_pressure);
}

#[test]
fn allocator_alone_drives_the_step_but_cancels_nothing() {
    let p = policy();
    let b = budget();
    let tasks = vec![task(1, 100, 10)];
    let d = p.decide(&b, &at_step(1), &reading(100, 100, 920), &tasks);
    assert_eq!(d.step, 2);
    assert!(d.cancel.is_empty());
    let d = p.decide(&b, &at_step(1), &reading(100, 100, 990), &tasks);
    assert_eq!(d.step, MAX_STEP);
    assert!(d.cancel.is_empty());
    let d = p.decide(&b, &at_step(1), &reading(100, 100, 0), &tasks);
    assert_eq!(d.step, 0);
}

#[test]
fn even_split_at_the_budget_is_no_overload() {
    let p = policy();
    let b = budget();
    let tasks = vec![task(1, 500, 10)];
    let d = p.decide(&b, &at_step(0), &reading(500, 500, 0), &tasks);
    assert_eq!(d.step, 0);
    assert!(d.cancel.is_empty());
}

#[test]
fn overload_cancels_the_largest_task_only_when_that_is_enough() {
    let p = policy();
    let b = budget();
    let tasks = vec![task(7, 300, 10), task(8, 700, 10)];
    let d = p.decide(&b, &at_step(0), &reading(600, 400, 0), &tasks);
    assert_eq!(d.step, MAX_STEP);
    assert_eq!(d.step_delta, MAX_STEP as i64);
    assert_eq!(d.cancel, vec![8]);
    assert!(!d.sustained_pressure);
}

#[test]
fn overload_cancels_as_many_as_it_takes() {
    let p = policy();
    let b = budget();
    // 1200 in use, limit 950: 100 and 100 are not enough, the third brings 940.
    let tasks = vec![task(1, 60, 10), task(2, 100, 10), task(3, 100, 20), task(4, 50, 10)];
    let d = p.decide(&b, &at_step(2), &reading(800, 400, 0), &tasks);
    assert_eq!(d.step, MAX_STEP);
    assert_eq!(d.cancel, vec![3, 2, 1]);
    assert!(!d.sustained_pressure);
}

#[test]
fn sustained_pressure_when_every_task_is_cancelled_in_vain() {
    let p = policy();
    let b = budget();
    let tasks = vec![task(1, 10, 10), task(2, 0, 99), task(3, 20, 10)];
    let d = p.decide(&b, &at_step(MAX_STEP), &reading(900, 300, 0), &tasks);
    assert_eq!(d.step, MAX_STEP);
    assert_eq!(d.step_delta, 0);
    assert_eq!(d.cancel, vec![3, 1]);
    assert!(d.sustained_pressure);
}

#[test]
fn sustained_pressure_without_any_task() {
    let p = policy();
    let b = budget();
    let d = p.decide(&b, &at_step(0), &reading(960, 0, 0), &vec![]);
    assert_eq!(d.step, MAX_STEP);
    assert!(d.cancel.is_empty());
    assert!(d.sustained_pressure);
}

#[test]
fn step_above_the_maximum_is_brought_back() {
    let p = policy();
    let b = budget();
    let d = p.decide(&b, &at_step(MAX_STEP + 10), &reading(0, 800, 0), &vec![]);
    assert_eq!(d.step, MAX_STEP);
    assert_eq!(d.step_delta, -10);
    let d = p.decide(&b, &at_step(MAX_STEP + 10), &reading(0, 100, 0), &vec![]);
    assert_eq!(d.step, MAX_STEP - 1);
}

#[test]
fn threshold_strategy_decides_like_its_policy() {
    let p = policy();
    let b = budget();
    let tasks = vec![task(7, 300, 10), task(8, 700, 10)];
    let r = reading(600, 400, 0);
    let direct = p.decide(&b, &at_step(1), &r, &tasks);
    let through = MemoryControlPolicy::Threshold(p).decide(&b, &at_step(1), &r, &tasks);
    assert_eq!(direct.step, through.step);
    assert_eq!(direct.step_delta, through.step_delta);
    assert_eq!(direct.cancel, through.cancel);
    assert_eq!(direct.sustained_pressure, through.sustained_pressure);
}

#[test]
fn fractions_convert_to_per_mille() {
    let low = (0.7f64 * 1000.0).round() as u32;
    let soft = (0.9f64 * 1000.0).round() as u32;
    let hard = (0.95f64 * 1000.0).round() as u32;
    let p = ControlPolicy::new(low, soft, hard, 2).unwrap();
    assert_eq!((p.low_permille(), p.soft_permille(), p.hard_permille()), (700, 900, 950));
}
