//! The eviction watermark: a logical epoch that only moves forward.
//!
//! The controller is the only writer. Caches all over the node hold a handle
//! to the same atomic cell and load it whenever they decide what to evict: an
//! entry whose last access lies strictly before the watermark may go.

use std::sync::atomic::{AtomicU64, Ordering};
use std::sync::Arc;
use vstd::prelude::*;

verus! {

/// Number of low bits of an epoch that do not count physical time.
pub const EPOCH_PHYSICAL_SHIFT_BITS: u32 = 16;

/// Epoch units that one millisecond of physical time spans.
pub const EPOCH_UNITS_PER_MS: u64 = 65536;

/// The epoch distance that one tick interval of wall-clock time spans.
pub open spec fn base_epoch_delta(tick_interval_ms: u32) -> nat {
    (tick_interval_ms * EPOCH_UNITS_PER_MS) as nat
}

/// How far one tick moves the watermark at a given step: the base distance
/// once for the time that passed, and once more for every unit of the step.
pub open spec fn epoch_advance(tick_interval_ms: u32, step: u32) -> nat {
    base_epoch_delta(tick_interval_ms) * (1 + step) as nat
}

/// The watermark after one tick. It stops at the largest epoch instead of
/// wrapping around.
pub open spec fn advanced_epoch(epoch: u64, tick_interval_ms: u32, step: u32) -> u64 {
    if epoch + epoch_advance(tick_interval_ms, step) > u64::MAX {
        u64::MAX
    } else {
        (epoch + epoch_advance(tick_interval_ms, step)) as u64
    }
}

/// The watermark after a run of ticks with the given steps, one per tick.
pub open spec fn epoch_after(start: u64, tick_interval_ms: u32, steps: Seq<u32>) -> u64
    decreases steps.len(),
{
    if steps.len() == 0 {
        start
    } else {
        advanced_epoch(
            epoch_after(start, tick_interval_ms, steps.drop_last()),
            tick_interval_ms,
            steps.last(),
        )
    }
}

/// The sum of the steps of a run of ticks.
pub open spec fn cumulative_steps(steps: Seq<u32>) -> nat
    decreases steps.len(),
{
    if steps.len() == 0 {
        0
    } else {
        cumulative_steps(steps.drop_last()) + steps.last() as nat
    }
}

/// Whether a cache entry last accessed at `last_access_epoch` may be evicted
/// under `watermark`.
pub open spec fn evictable(last_access_epoch: u64, watermark: u64) -> bool {
    last_access_epoch < watermark
}

/// Computes the watermark after one tick.
pub fn next_epoch(epoch: u64, tick_interval_ms: u32, step: u32) -> (next: u64)
    ensures
        next == advanced_epoch(epoch, tick_interval_ms, step),
        next >= epoch,
{
    assert(0 <= tick_interval_ms * EPOCH_UNITS_PER_MS <= 0xffff_ffff_0000) by (nonlinear_arith)
        requires
            EPOCH_UNITS_PER_MS == 65536,
            0 <= tick_interval_ms <= 0xffff_ffff,
    ;
    let base: u128 = tick_interval_ms as u128 * EPOCH_UNITS_PER_MS as u128;
    let factor: u128 = 1 + step as u128;
    assert(base * factor <= 0xffff_ffff_0000 * 0x1_0000_0000) by (nonlinear_arith)
        requires
            0 <= base <= 0xffff_ffff_0000,
            0 <= factor <= 0x1_0000_0000,
    ;
    let target: u128 = epoch as u128 + base * factor;
    if target > u64::MAX as u128 {
        u64::MAX
    } else {
        target as u64
    }
}

/// Tells whether a cache entry may be evicted: its last access lies strictly
/// before the watermark.
pub fn is_evictable(last_access_epoch: u64, watermark: u64) -> (may_go: bool)
    ensures
        may_go == evictable(last_access_epoch, watermark),
{
    last_access_epoch < watermark
}

/// The writer's side of the watermark.
///
/// The clock keeps the epoch it published last and stores every new epoch
/// into the shared cell. What a handle loads from the cell is outside of what
/// is proved here; the contracts below speak of the published epoch.
#[derive(Debug)]
pub struct WatermarkClock {
    shared: Arc<AtomicU64>,
    published: u64,
    tick_interval_ms: u32,
}

impl WatermarkClock {
    /// The epoch published last.
    pub closed spec fn spec_current(&self) -> u64 {
        self.published
    }

    /// The tick interval the clock advances by.
    pub closed spec fn spec_tick_interval_ms(&self) -> u32 {
        self.tick_interval_ms
    }

    /// A clock at epoch zero.
    pub fn new(tick_interval_ms: u32) -> (clock: WatermarkClock)
        ensures
            clock.current() == 0,
            clock.tick_interval_ms() == tick_interval_ms,
    {
        WatermarkClock { shared: Arc::new(AtomicU64::new(0)), published: 0, tick_interval_ms }
    }

    /// The epoch published last. Never blocks.
    #[verifier::when_used_as_spec(spec_current)]
    pub fn current(&self) -> (epoch: u64)
        ensures
            epoch == self.spec_current(),
    {
        self.published
    }

    #[verifier::when_used_as_spec(spec_tick_interval_ms)]
    pub fn tick_interval_ms(&self) -> (ms: u32)
        ensures
            ms == self.spec_tick_interval_ms(),
    {
        self.tick_interval_ms
    }

    /// Moves the watermark forward by one tick at the given step and
    /// publishes it. A reader sees the epoch of before or the new one.
    pub fn advance(&mut self, step: u32)
        ensures
            final(self).current() == advanced_epoch(
                old(self).current(),
                old(self).tick_interval_ms(),
                step,
            ),
            final(self).current() >= old(self).current(),
            final(self).tick_interval_ms() == old(self).tick_interval_ms(),
            final(self).cell() == old(self).cell(),
    {
        let next: u64 = next_epoch(self.published, self.tick_interval_ms, step);
        self.shared.store(next, Ordering::Relaxed);
        self.published = next;
    }

    /// The cell that every handle shares.
    pub closed spec fn cell(&self) -> Arc<AtomicU64> {
        self.shared
    }

    /// A handle to the shared cell, for a reader to load the watermark from.
    /// Every handle is the one cell that `advance` stores into.
    pub fn handle(&self) -> (handle: Arc<AtomicU64>)
        ensures
            handle == self.cell(),
    {
        self.shared.clone()
    }

}

/// The watermark never moves backwards: one more tick, at whatever step,
/// leaves it where it was or further on.
pub proof fn lemma_watermark_never_decreases(start: u64, tick_interval_ms: u32, steps: Seq<u32>)
    requires
        steps.len() > 0,
    ensures
        epoch_after(start, tick_interval_ms, steps) >= epoch_after(
            start,
            tick_interval_ms,
            steps.drop_last(),
        ),
{
}

/// The watermark after any number of ticks is at least the watermark after
/// fewer of them.
pub proof fn lemma_watermark_is_monotonic(
    start: u64,
    tick_interval_ms: u32,
    steps: Seq<u32>,
    earlier: int,
    later: int,
)
    requires
        0 <= earlier <= later <= steps.len(),
    ensures
        epoch_after(start, tick_interval_ms, steps.take(earlier)) <= epoch_after(
            start,
            tick_interval_ms,
            steps.take(later),
        ),
    decreases later - earlier,
{
    if earlier < later {
        lemma_watermark_is_monotonic(start, tick_interval_ms, steps, earlier, later - 1);
        assert(steps.take(later).drop_last() == steps.take(later - 1));
    }
}

/// The watermark is a function of the time that passed and of the steps
/// taken: after `n` ticks it lies `n` base distances plus one base distance
/// per unit of step beyond its start, unless it has reached the largest epoch.
pub proof fn lemma_watermark_closed_form(start: u64, tick_interval_ms: u32, steps: Seq<u32>)
    ensures
        ({
            let target = start + base_epoch_delta(tick_interval_ms) * (steps.len()
                + cumulative_steps(steps));
            epoch_after(start, tick_interval_ms, steps) == if target > u64::MAX {
                u64::MAX as int
            } else {
                target
            }
        }),
    decreases steps.len(),
{
    let base = base_epoch_delta(tick_interval_ms);
    if steps.len() == 0 {
        assert(base * (0 + 0) == 0) by (nonlinear_arith);
    } else {
        let before = steps.drop_last();
        lemma_watermark_closed_form(start, tick_interval_ms, before);
        let n = before.len();
        let sum = cumulative_steps(before);
        let last = steps.last() as nat;
        assert(base * (n + sum) + base * (1 + last) == base * ((n + 1) + (sum + last)))
            by (nonlinear_arith);
        assert(base * (n + sum) >= 0) by (nonlinear_arith)
            requires
                base >= 0,
                n + sum >= 0,
        ;
        assert(base * (1 + last) >= 0) by (nonlinear_arith)
            requires
                base >= 0,
                last >= 0,
        ;
    }
}

/// What may be evicted stays evictable: an entry below the watermark is
/// below every later watermark too.
pub proof fn lemma_evictable_is_stable(
    last_access_epoch: u64,
    watermark: u64,
    tick_interval_ms: u32,
    step: u32,
)
    requires
        evictable(last_access_epoch, watermark),
    ensures
        evictable(last_access_epoch, advanced_epoch(watermark, tick_interval_ms, step)),
{
}

} // verus!
