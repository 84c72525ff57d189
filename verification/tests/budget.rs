use memory_control::budget::{
    ConfigError, MemoryBudget, BYTES_PER_MB, MIN_COMPUTE_MEMORY_MB, MIN_TICK_INTERVAL_MS,
    SYSTEM_RESERVED_MEMORY_MB,
};
use memory_control::usage::UsageReading;

const FLOOR: usize = 512 << 20;

#[test]
fn constants_are_in_megabytes() {
    assert_eq!(MIN_COMPUTE_MEMORY_MB, 512);
    assert_eq!(SYSTEM_RESERVED_MEMORY_MB, 512);
    assert_eq!(BYTES_PER_MB, 1 << 20);
    assert_eq!(MIN_TICK_INTERVAL_MS, 10);
}

#[test]
fn budget_below_the_floor_is_refused() {
    assert_eq!(MemoryBudget::new(0, 100).err(), Some(ConfigError::BudgetBelowFloor));
    assert_eq!(MemoryBudget::new(FLOOR - 1, 100).err(), Some(ConfigError::BudgetBelowFloor));
    let budget = MemoryBudget::new(FLOOR, 100).unwrap();
    assert_eq!(budget.total_bytes(), FLOOR);
    assert_eq!(budget.tick_interval_ms(), 100);
}

#[test]
fn short_intervals_are_raised() {
    assert_eq!(MemoryBudget::new(FLOOR, 0).unwrap().tick_interval_ms(), 10);
    assert_eq!(MemoryBudget::new(FLOOR, 9).unwrap().tick_interval_ms(), 10);
    assert_eq!(MemoryBudget::new(FLOOR, 10).unwrap().tick_interval_ms(), 10);
    assert_eq!(MemoryBudget::new(FLOOR, 11).unwrap().tick_interval_ms(), 11);
    assert_eq!(MemoryBudget::new(FLOOR, u32::MAX).unwrap().tick_interval_ms(), u32::MAX);
}

#[test]
fn budget_from_system_memory_takes_off_the_reserve() {
    let budget = MemoryBudget::from_system_memory(4096 << 20, 1000).unwrap();
    assert_eq!(budget.total_bytes(), 3584 << 20);
    assert_eq!(budget.tick_interval_ms(), 1000);
    let least = MemoryBudget::from_system_memory(1024 << 20, 5).unwrap();
    assert_eq!(least.total_bytes(), FLOOR);
    assert_eq!(least.tick_interval_ms(), 10);
}

#[test]
fn small_nodes_are_refused() {
    assert_eq!(
        MemoryBudget::from_system_memory((1024 << 20) - 1, 100).err(),
        Some(ConfigError::BudgetBelowFloor)
    );
    assert_eq!(
        MemoryBudget::from_system_memory(100, 100).err(),
        Some(ConfigError::BudgetBelowFloor)
    );
}

#[test]
fn failed_probes_read_as_zero() {
    let reading = UsageReading::from_samples(Some(5), None, Some(7));
    assert_eq!(
        reading,
        UsageReading { batch_bytes: 5, streaming_bytes: 0, allocator_bytes: 7 }
    );
    assert_eq!(UsageReading::from_samples(None, None, None), UsageReading::zero());
    assert_eq!(
        UsageReading::zero(),
        UsageReading { batch_bytes: 0, streaming_bytes: 0, allocator_bytes: 0 }
    );
}
