//! What the control loop reads every tick: memory usage and running batch tasks.

use vstd::prelude::*;

verus! {

/// One sample of the memory occupied by batch execution, by streaming
/// execution, and by the process as the allocator reports it.
///
/// A field that is zero stands for "nothing read": that signal then
/// contributes no pressure.
#[derive(Debug, Clone, Copy, PartialEq, Eq, Structural)]
pub struct UsageReading {
    pub batch_bytes: usize,
    pub streaming_bytes: usize,
    pub allocator_bytes: usize,
}

/// The value a failed probe degrades to.
pub open spec fn probe_value(sample: Option<usize>) -> usize {
    match sample {
        Some(bytes) => bytes,
        None => 0,
    }
}

impl UsageReading {
    /// Bytes held by batch and streaming work together.
    pub open spec fn total(self) -> nat {
        (self.batch_bytes + self.streaming_bytes) as nat
    }

    /// Whether every signal of the reading is missing.
    pub open spec fn is_blank(self) -> bool {
        self.batch_bytes == 0 && self.streaming_bytes == 0 && self.allocator_bytes == 0
    }

    /// The largest of the three signals: the one that sets the pressure level.
    pub open spec fn peak(self) -> usize {
        if self.batch_bytes >= self.streaming_bytes && self.batch_bytes >= self.allocator_bytes {
            self.batch_bytes
        } else if self.streaming_bytes >= self.allocator_bytes {
            self.streaming_bytes
        } else {
            self.allocator_bytes
        }
    }

    /// Whether the usage has fallen since `earlier`: its largest signal is
    /// smaller than the largest signal then.
    pub open spec fn has_fallen_from(self, earlier: UsageReading) -> bool {
        self.peak() < earlier.peak()
    }

    /// Returns the largest of the three signals.
    pub fn largest_signal(&self) -> (bytes: usize)
        ensures
            bytes == self.peak(),
    {
        if self.batch_bytes >= self.streaming_bytes && self.batch_bytes >= self.allocator_bytes {
            self.batch_bytes
        } else if self.streaming_bytes >= self.allocator_bytes {
            self.streaming_bytes
        } else {
            self.allocator_bytes
        }
    }

    /// Tells whether the usage has fallen since `earlier`.
    pub fn fell_from(&self, earlier: &UsageReading) -> (fallen: bool)
        ensures
            fallen == self.has_fallen_from(*earlier),
    {
        self.largest_signal() < earlier.largest_signal()
    }

    /// The reading in which nothing was read.
    pub fn zero() -> (reading: UsageReading)
        ensures
            reading.is_blank(),
    {
        UsageReading { batch_bytes: 0, streaming_bytes: 0, allocator_bytes: 0 }
    }

    /// Builds a reading from three probe results. A probe that failed
    /// (`None`) counts as zero, so a tick never stalls on a missing sample.
    pub fn from_samples(
        batch: Option<usize>,
        streaming: Option<usize>,
        allocator: Option<usize>,
    ) -> (reading: UsageReading)
        ensures
            reading.batch_bytes == probe_value(batch),
            reading.streaming_bytes == probe_value(streaming),
            reading.allocator_bytes == probe_value(allocator),
    {
        UsageReading {
            batch_bytes: sample_or_zero(batch),
            streaming_bytes: sample_or_zero(streaming),
            allocator_bytes: sample_or_zero(allocator),
        }
    }
}

fn sample_or_zero(sample: Option<usize>) -> (bytes: usize)
    ensures
        bytes == probe_value(sample),
{
    match sample {
        Some(bytes) => bytes,
        None => 0,
    }
}

/// A running batch task as the task registry reports it.
#[derive(Debug, Clone, Copy, PartialEq, Eq, Structural)]
pub struct BatchTask {
    /// Identifier under which the registry cancels the task.
    pub id: u64,
    /// Memory the task holds at the moment of the snapshot.
    pub memory_bytes: usize,
    /// Time the task has been running.
    pub elapsed_ms: u64,
}

} // verus!
