//! Capturing the platform's memory map.
//!
//! The size of the map is not known in advance. A first query with an empty
//! buffer makes the firmware say how much it needs; the next one brings a
//! buffer of that size and a margin, since allocating the buffer may itself
//! grow the map. The number of such retries is bounded.

use vstd::prelude::*;

verus! {

/// Bytes added to the size that the firmware asked for.
pub const SIZE_MARGIN: usize = 512;

/// The memory layout at one moment, with the key that ends firmware services.
///
/// The key is good until the next allocation or release of memory.
#[derive(Debug, PartialEq, Eq)]
pub struct MemoryMapSnapshot {
    pub descriptor_buffer: Vec<u8>,
    pub descriptor_size: usize,
    pub descriptor_version: u32,
    pub map_key: u64,
}

/// What the firmware answered to a query.
#[derive(Debug, PartialEq, Eq)]
pub enum MapQueryOutcome {
    /// The buffer was too small; the map needs `needed` bytes.
    BufferTooSmall { needed: usize },
    /// The map was written.
    Captured(MemoryMapSnapshot),
}

/// Why no memory map was captured.
#[derive(Debug, Clone, Copy, PartialEq, Eq, Structural)]
pub enum MemoryMapCaptureError {
    /// The firmware kept asking for a larger buffer.
    RetriesExhausted,
    /// The size asked for, with its margin, is no size at all.
    SizeOverflow,
}

/// What to do after an answer of the firmware.
#[derive(Debug, PartialEq, Eq)]
pub enum CaptureStep {
    /// Query again, with a buffer of `buffer_size` bytes.
    Query { buffer_size: usize },
    /// The snapshot is taken.
    Done(MemoryMapSnapshot),
    /// Give up.
    Failed(MemoryMapCaptureError),
}

/// The progress of one capture.
#[derive(Debug, Clone, Copy, PartialEq, Eq, Structural)]
pub struct MapCapture {
    /// How many more times a larger buffer may be tried.
    pub retries_left: u32,
    /// The size of the buffer of the last query.
    pub buffer_size: usize,
}

/// The capture after `outcome`.
pub open spec fn capture_after(capture: MapCapture, outcome: MapQueryOutcome) -> MapCapture {
    match outcome {
        MapQueryOutcome::BufferTooSmall { needed } => if capture.retries_left > 0 && needed
            + SIZE_MARGIN <= usize::MAX {
            MapCapture {
                retries_left: (capture.retries_left - 1) as u32,
                buffer_size: (needed + SIZE_MARGIN) as usize,
            }
        } else {
            capture
        },
        MapQueryOutcome::Captured(_) => capture,
    }
}

/// What `outcome` asks of a capture in the state `capture`.
pub open spec fn capture_step(capture: MapCapture, outcome: MapQueryOutcome) -> CaptureStep {
    match outcome {
        MapQueryOutcome::BufferTooSmall { needed } => if capture.retries_left == 0 {
            CaptureStep::Failed(MemoryMapCaptureError::RetriesExhausted)
        } else if needed + SIZE_MARGIN > usize::MAX {
            CaptureStep::Failed(MemoryMapCaptureError::SizeOverflow)
        } else {
            CaptureStep::Query { buffer_size: (needed + SIZE_MARGIN) as usize }
        },
        MapQueryOutcome::Captured(snapshot) => CaptureStep::Done(snapshot),
    }
}

/// The capture after `rounds` answers that each ask for `needed` bytes.
pub open spec fn after_refusals(capture: MapCapture, needed: usize, rounds: nat) -> MapCapture
    decreases rounds,
{
    if rounds == 0 {
        capture
    } else {
        capture_after(
            after_refusals(capture, needed, (rounds - 1) as nat),
            MapQueryOutcome::BufferTooSmall { needed },
        )
    }
}

/// A firmware that always asks for more is queried again exactly as often
/// as the budget allows, and then the capture fails.
pub proof fn law_capture_is_bounded(budget: u32, needed: usize)
    requires
        needed + SIZE_MARGIN <= usize::MAX,
    ensures
        forall|k: nat|
            k < budget ==> #[trigger] capture_step(
                after_refusals(MapCapture { retries_left: budget, buffer_size: 0 }, needed, k),
                MapQueryOutcome::BufferTooSmall { needed },
            ) == (CaptureStep::Query { buffer_size: (needed + SIZE_MARGIN) as usize }),
        capture_step(
            after_refusals(MapCapture { retries_left: budget, buffer_size: 0 }, needed, budget as nat),
            MapQueryOutcome::BufferTooSmall { needed },
        ) == CaptureStep::Failed(MemoryMapCaptureError::RetriesExhausted),
{
    let start = MapCapture { retries_left: budget, buffer_size: 0 };
    assert forall|k: nat| k <= budget implies (#[trigger] after_refusals(
        start,
        needed,
        k,
    )).retries_left == budget - k by {
        lemma_refusals_count(start, needed, k);
    }
}

/// Each answer that asks for more uses up one retry.
proof fn lemma_refusals_count(capture: MapCapture, needed: usize, rounds: nat)
    requires
        needed + SIZE_MARGIN <= usize::MAX,
        rounds <= capture.retries_left,
    ensures
        after_refusals(capture, needed, rounds).retries_left == capture.retries_left - rounds,
    decreases rounds,
{
    if rounds > 0 {
        lemma_refusals_count(capture, needed, (rounds - 1) as nat);
    }
}

impl MapCapture {
    /// A capture that has asked nothing yet. Its first query is the probe,
    /// with an empty buffer.
    pub fn new(budget: u32) -> (capture: MapCapture)
        ensures
            capture == (MapCapture { retries_left: budget, buffer_size: 0 }),
    {
        MapCapture { retries_left: budget, buffer_size: 0 }
    }

    /// Takes the firmware's answer to the last query.
    pub fn on_outcome(&mut self, outcome: MapQueryOutcome) -> (step: CaptureStep)
        ensures
            *final(self) == capture_after(*old(self), outcome),
            step == capture_step(*old(self), outcome),
    {
        match outcome {
            MapQueryOutcome::BufferTooSmall { needed } => {
                if self.retries_left == 0 {
                    CaptureStep::Failed(MemoryMapCaptureError::RetriesExhausted)
                } else if needed > usize::MAX - SIZE_MARGIN {
                    CaptureStep::Failed(MemoryMapCaptureError::SizeOverflow)
                } else {
                    let buffer_size: usize = needed + SIZE_MARGIN;
                    self.retries_left = self.retries_left - 1;
                    self.buffer_size = buffer_size;
                    CaptureStep::Query { buffer_size }
                }
            },
            MapQueryOutcome::Captured(snapshot) => CaptureStep::Done(snapshot),
        }
    }
}

} // verus!
