//! The record the control loop carries from one tick to the next.

use vstd::prelude::*;
use crate::usage::UsageReading;

verus! {

/// Rolling state of the controller: what the last tick observed and decided.
#[derive(Debug, Clone, Copy, PartialEq, Eq, Structural)]
pub struct ControllerState {
    /// Batch memory seen by the last tick, in bytes.
    pub batch_bytes: usize,
    /// Streaming memory seen by the last tick, in bytes.
    pub streaming_bytes: usize,
    /// Allocator-reported memory seen by the last tick, in bytes.
    pub allocator_bytes: usize,
    /// Step by which the watermark currently runs ahead of wall-clock time.
    pub watermark_step: u32,
    /// Watermark epoch published by the last tick.
    pub watermark_epoch: u64,
    /// Wall-clock time of the last tick, in milliseconds.
    pub last_tick_ms: u64,
}

impl ControllerState {
    /// The state of a controller that has not ticked yet.
    pub open spec fn initial() -> ControllerState {
        ControllerState {
            batch_bytes: 0,
            streaming_bytes: 0,
            allocator_bytes: 0,
            watermark_step: 0,
            watermark_epoch: 0,
            last_tick_ms: 0,
        }
    }

    /// The usage the last tick observed.
    pub open spec fn observed(&self) -> UsageReading {
        UsageReading {
            batch_bytes: self.batch_bytes,
            streaming_bytes: self.streaming_bytes,
            allocator_bytes: self.allocator_bytes,
        }
    }

    /// State before the first tick: nothing observed, step and epoch at zero.
    pub fn new() -> (state: ControllerState)
        ensures
            state == ControllerState::initial(),
    {
        ControllerState {
            batch_bytes: 0,
            streaming_bytes: 0,
            allocator_bytes: 0,
            watermark_step: 0,
            watermark_epoch: 0,
            last_tick_ms: 0,
        }
    }

    /// The usage the last tick observed.
    #[verifier::when_used_as_spec(observed)]
    pub fn last_reading(&self) -> (reading: UsageReading)
        ensures
            reading == self.observed(),
    {
        UsageReading {
            batch_bytes: self.batch_bytes,
            streaming_bytes: self.streaming_bytes,
            allocator_bytes: self.allocator_bytes,
        }
    }
}

} // verus!
