//! Everything that ends a boot, and the status that each kind reports.

use crate::config::{MissingKeyError, SyntaxError};
use crate::image::ElfFormatError;
use crate::memory_map::MemoryMapCaptureError;
use crate::placement::{SegmentAllocationError, SegmentOverlapError};
use vstd::prelude::*;

verus! {

/// The file that could not be read.
#[derive(Debug, Clone, Copy, PartialEq, Eq, Structural)]
pub enum DiskError {
    /// The configuration file.
    Config,
    /// The kernel image.
    Kernel,
}

/// Why the hand-off to the kernel failed.
#[derive(Debug, Clone, Copy, PartialEq, Eq, Structural)]
pub enum HandoffError {
    /// The map key was stale once more than the retry bound allows.
    StaleRetriesExhausted,
    /// The kernel's entry point returned.
    EntryReturned,
    /// Something was reported that the loader was not waiting for.
    UnexpectedEvent,
}

/// An unrecoverable error. None is retried; each ends the boot.
#[derive(Debug, Clone, Copy, PartialEq, Eq, Structural)]
pub enum BootError {
    ConfigSyntax(SyntaxError),
    ConfigMissingKey(MissingKeyError),
    Disk(DiskError),
    ElfFormat(ElfFormatError),
    SegmentOverlap(SegmentOverlapError),
    SegmentAllocation(SegmentAllocationError),
    MemoryMapCapture(MemoryMapCaptureError),
    Handoff(HandoffError),
}

/// The status that tells the kind of `error` apart.
pub open spec fn status_of(error: BootError) -> u32 {
    match error {
        BootError::ConfigSyntax(_) => 1,
        BootError::ConfigMissingKey(_) => 2,
        BootError::Disk(_) => 3,
        BootError::ElfFormat(_) => 4,
        BootError::SegmentOverlap(_) => 5,
        BootError::SegmentAllocation(_) => 6,
        BootError::MemoryMapCapture(_) => 7,
        BootError::Handoff(_) => 8,
    }
}

/// `a` and `b` are errors of one kind.
pub open spec fn same_kind(a: BootError, b: BootError) -> bool {
    match (a, b) {
        (BootError::ConfigSyntax(_), BootError::ConfigSyntax(_)) => true,
        (BootError::ConfigMissingKey(_), BootError::ConfigMissingKey(_)) => true,
        (BootError::Disk(_), BootError::Disk(_)) => true,
        (BootError::ElfFormat(_), BootError::ElfFormat(_)) => true,
        (BootError::SegmentOverlap(_), BootError::SegmentOverlap(_)) => true,
        (BootError::SegmentAllocation(_), BootError::SegmentAllocation(_)) => true,
        (BootError::MemoryMapCapture(_), BootError::MemoryMapCapture(_)) => true,
        (BootError::Handoff(_), BootError::Handoff(_)) => true,
        _ => false,
    }
}

/// No status is zero, and two errors report one status exactly when they
/// are of one kind.
pub proof fn law_status_tells_kinds_apart(a: BootError, b: BootError)
    ensures
        status_of(a) != 0,
        status_of(a) == status_of(b) <==> same_kind(a, b),
{
}

impl BootError {
    /// The status to end the boot with.
    pub fn status_code(&self) -> (status: u32)
        ensures
            status == status_of(*self),
    {
        match self {
            BootError::ConfigSyntax(_) => 1,
            BootError::ConfigMissingKey(_) => 2,
            BootError::Disk(_) => 3,
            BootError::ElfFormat(_) => 4,
            BootError::SegmentOverlap(_) => 5,
            BootError::SegmentAllocation(_) => 6,
            BootError::MemoryMapCapture(_) => 7,
            BootError::Handoff(_) => 8,
        }
    }
}

} // verus!
