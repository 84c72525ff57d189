//! The fixed configuration of the control loop.

use vstd::prelude::*;

verus! {

/// The minimal memory requirement of computing tasks, in megabytes.
pub const MIN_COMPUTE_MEMORY_MB: usize = 512;

/// The memory reserved for system usage (stacks and code of the process,
/// allocation overhead, network buffers), in megabytes.
pub const SYSTEM_RESERVED_MEMORY_MB: usize = 512;

/// The shortest tick interval, in milliseconds. A configured interval below
/// it, zero in particular, is raised to it.
pub const MIN_TICK_INTERVAL_MS: u32 = 10;

/// Bytes in a megabyte.
pub const BYTES_PER_MB: usize = 1048576;

/// Why a configuration was refused.
#[derive(Debug, Clone, Copy, PartialEq, Eq, Structural)]
pub enum ConfigError {
    /// The pressure thresholds are not strictly ascending.
    ThresholdsOutOfOrder,
    /// The budget is smaller than the minimal memory of computing tasks.
    BudgetBelowFloor,
}

impl ConfigError {
    /// Says in words why the configuration was refused.
    pub fn message(&self) -> (text: &'static str)
        ensures
            text@ == match self {
                ConfigError::ThresholdsOutOfOrder => "pressure thresholds must ascend strictly: low < soft < hard"@,
                ConfigError::BudgetBelowFloor => "memory budget is below the minimum for computing tasks"@,
            },
    {
        match self {
            ConfigError::ThresholdsOutOfOrder => "pressure thresholds must ascend strictly: low < soft < hard",
            ConfigError::BudgetBelowFloor => "memory budget is below the minimum for computing tasks",
        }
    }
}

/// The smallest budget a controller accepts, in bytes.
pub open spec fn min_compute_memory_bytes() -> nat {
    (MIN_COMPUTE_MEMORY_MB * BYTES_PER_MB) as nat
}

/// What the system keeps for itself, in bytes.
pub open spec fn system_reserved_memory_bytes() -> nat {
    (SYSTEM_RESERVED_MEMORY_MB * BYTES_PER_MB) as nat
}

/// The interval the loop runs at when `configured_ms` is asked for.
pub open spec fn clamped_interval(configured_ms: u32) -> u32 {
    if configured_ms < MIN_TICK_INTERVAL_MS {
        MIN_TICK_INTERVAL_MS
    } else {
        configured_ms
    }
}

/// Total bytes available for computation and the tick interval, fixed when
/// the controller is built.
#[derive(Debug, Clone, Copy, PartialEq, Eq)]
pub struct MemoryBudget {
    total_bytes: usize,
    tick_interval_ms: u32,
}

impl MemoryBudget {
    pub closed spec fn spec_total_bytes(&self) -> usize {
        self.total_bytes
    }

    pub closed spec fn spec_tick_interval_ms(&self) -> u32 {
        self.tick_interval_ms
    }

    /// A budget is at least the compute floor, and its interval at least the
    /// minimal one.
    #[verifier::type_invariant]
    pub open spec fn wf(&self) -> bool {
        &&& self.spec_total_bytes() >= min_compute_memory_bytes()
        &&& self.spec_tick_interval_ms() >= MIN_TICK_INTERVAL_MS
    }

    /// Accepts `total_bytes` when it reaches the compute floor, and clamps the
    /// interval from below.
    pub fn new(total_bytes: usize, tick_interval_ms: u32) -> (made: Result<MemoryBudget, ConfigError>)
        ensures
            made is Err <==> total_bytes < min_compute_memory_bytes(),
            made matches Err(e) ==> e == ConfigError::BudgetBelowFloor,
            made matches Ok(budget) ==> {
                &&& budget.wf()
                &&& budget.spec_total_bytes() == total_bytes
                &&& budget.spec_tick_interval_ms() == clamped_interval(tick_interval_ms)
            },
    {
        if total_bytes < MIN_COMPUTE_MEMORY_MB * BYTES_PER_MB {
            return Err(ConfigError::BudgetBelowFloor);
        }
        let interval: u32 = if tick_interval_ms < MIN_TICK_INTERVAL_MS {
            MIN_TICK_INTERVAL_MS
        } else {
            tick_interval_ms
        };
        Ok(MemoryBudget { total_bytes, tick_interval_ms: interval })
    }

    /// Derives the budget from the memory of the whole node: what is left
    /// once the share reserved for the system is taken off. A node on which
    /// less than the compute floor is left is refused.
    pub fn from_system_memory(system_bytes: usize, tick_interval_ms: u32) -> (made: Result<
        MemoryBudget,
        ConfigError,
    >)
        ensures
            made is Err <==> system_bytes < system_reserved_memory_bytes()
                + min_compute_memory_bytes(),
            made matches Err(e) ==> e == ConfigError::BudgetBelowFloor,
            made matches Ok(budget) ==> {
                &&& budget.wf()
                &&& budget.spec_total_bytes() == system_bytes - system_reserved_memory_bytes()
                &&& budget.spec_tick_interval_ms() == clamped_interval(tick_interval_ms)
            },
    {
        let reserved: usize = SYSTEM_RESERVED_MEMORY_MB * BYTES_PER_MB;
        if system_bytes < reserved {
            return Err(ConfigError::BudgetBelowFloor);
        }
        MemoryBudget::new(system_bytes - reserved, tick_interval_ms)
    }

    #[verifier::when_used_as_spec(spec_total_bytes)]
    pub fn total_bytes(&self) -> (bytes: usize)
        ensures
            bytes == self.spec_total_bytes(),
            bytes >= min_compute_memory_bytes(),
    {
        proof {
            use_type_invariant(self);
        }
        self.total_bytes
    }

    #[verifier::when_used_as_spec(spec_tick_interval_ms)]
    pub fn tick_interval_ms(&self) -> (ms: u32)
        ensures
            ms == self.spec_tick_interval_ms(),
            ms >= MIN_TICK_INTERVAL_MS,
    {
        proof {
            use_type_invariant(self);
        }
        self.tick_interval_ms
    }
}

} // verus!
