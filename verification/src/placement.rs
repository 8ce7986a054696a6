//! Placing the segments of an image in memory.
//!
//! Segments whose address ranges overlap are refused before memory is asked
//! for. Then each segment, in order, gets a region of its memory size; the
//! region receives the segment's file bytes, followed by zeros. The caller
//! owns the allocator: the placer says what to ask for and takes the answer.

use crate::image::{segment_fits, Segment};
use vstd::prelude::*;
use vstd::slice::{slice_subrange, slice_to_vec};

verus! {

/// A range of memory handed out by the allocator.
#[derive(Debug, Clone, Copy, PartialEq, Eq, Structural)]
pub struct Region {
    pub base: u64,
    pub size: u64,
}

/// What to ask the allocator for.
#[derive(Debug, Clone, Copy, PartialEq, Eq, Structural)]
pub struct AllocationRequest {
    pub size: u64,
    pub alignment: u64,
}

/// A segment with the region that backs it.
#[derive(Debug, Clone, Copy, PartialEq, Eq, Structural)]
pub struct PlacedSegment {
    pub segment: Segment,
    pub backing_region: Region,
}

/// Two segments of one image claim a common address.
#[derive(Debug, Clone, Copy, PartialEq, Eq, Structural)]
pub struct SegmentOverlapError {
    pub first: usize,
    pub second: usize,
}

/// Why an answer of the allocator cannot be used.
#[derive(Debug, Clone, Copy, PartialEq, Eq, Structural)]
pub enum AllocationFault {
    /// Every segment has its region already.
    Unrequested,
    /// The allocator had no memory to give.
    Refused,
    /// The segment is larger than the address space.
    TooLarge,
    /// The region is smaller than the segment.
    TooSmall,
    /// The region does not start at a multiple of the segment's alignment.
    Misaligned,
}

/// No usable memory for a segment.
#[derive(Debug, Clone, Copy, PartialEq, Eq, Structural)]
pub struct SegmentAllocationError {
    pub index: usize,
    pub fault: AllocationFault,
}

/// The address `x` belongs to `segment`.
pub open spec fn claims(segment: Segment, x: int) -> bool {
    segment.virtual_address <= x < segment.virtual_address + segment.memory_size
}

/// The address ranges of `a` and `b` meet.
pub open spec fn overlap(a: Segment, b: Segment) -> bool {
    &&& a.memory_size > 0
    &&& b.memory_size > 0
    &&& a.virtual_address < b.virtual_address + b.memory_size
    &&& b.virtual_address < a.virtual_address + a.memory_size
}

/// No two of `segments` overlap.
pub open spec fn pairwise_disjoint(segments: Seq<Segment>) -> bool {
    forall|i: int, j: int|
        0 <= i < j < segments.len() ==> !overlap(#[trigger] segments[i], #[trigger] segments[j])
}

/// `(i, j)` is the first overlapping pair of `segments`, pairs ordered by
/// their first index and then by their second.
pub open spec fn first_overlap(segments: Seq<Segment>, i: int, j: int) -> bool {
    &&& 0 <= i < j < segments.len()
    &&& overlap(segments[i], segments[j])
    &&& forall|q: int| i < q < j ==> !overlap(segments[i], #[trigger] segments[q])
    &&& forall|p: int, q: int|
        0 <= p < i && p < q < segments.len() ==> !overlap(
            #[trigger] segments[p],
            #[trigger] segments[q],
        )
}

/// There is at most one first overlapping pair.
pub proof fn lemma_first_overlap_unique(segments: Seq<Segment>, i: int, j: int, p: int, q: int)
    requires
        first_overlap(segments, i, j),
        first_overlap(segments, p, q),
    ensures
        i == p,
        j == q,
{
}

/// The first overlapping pair of `segments`, where two of them overlap.
pub open spec fn first_overlap_of(segments: Seq<Segment>) -> SegmentOverlapError {
    choose|fault: SegmentOverlapError|
        first_overlap(segments, fault.first as int, fault.second as int)
}

/// What `first_overlap_of` gives once the pair is known.
pub proof fn lemma_first_overlap_of(segments: Seq<Segment>, fault: SegmentOverlapError)
    requires
        first_overlap(segments, fault.first as int, fault.second as int),
    ensures
        first_overlap_of(segments) == fault,
        !pairwise_disjoint(segments),
{
    let chosen = first_overlap_of(segments);
    lemma_first_overlap_unique(
        segments,
        fault.first as int,
        fault.second as int,
        chosen.first as int,
        chosen.second as int,
    );
}

/// Two ranges overlap exactly when some address belongs to both.
pub proof fn law_overlap_is_common_address(a: Segment, b: Segment)
    ensures
        overlap(a, b) <==> exists|x: int| claims(a, x) && claims(b, x),
{
    if overlap(a, b) {
        let x = if a.virtual_address >= b.virtual_address {
            a.virtual_address as int
        } else {
            b.virtual_address as int
        };
        assert(claims(a, x) && claims(b, x));
    }
}

/// What a segment asks of the allocator: its memory size, at its alignment.
pub open spec fn request_for(segment: Segment) -> AllocationRequest {
    AllocationRequest { size: segment.memory_size, alignment: segment.alignment }
}

/// `region` can back `segment`: it is large enough, and aligned where the
/// segment asks for an alignment above one.
pub open spec fn region_serves(region: Region, segment: Segment) -> bool {
    &&& region.size >= segment.memory_size
    &&& segment.alignment > 1 ==> region.base as int % segment.alignment as int == 0
}

/// What a region for `segment` holds once it is filled from the image
/// `bytes`: the segment's file bytes, then zeros up to its memory size.
pub open spec fn segment_memory(bytes: Seq<u8>, segment: Segment) -> Seq<u8> {
    bytes.subrange(
        segment.file_offset as int,
        segment.file_offset + segment.file_size,
    ) + Seq::new((segment.memory_size - segment.file_size) as nat, |i: int| 0u8)
}

/// A filled region starts with the segment's bytes as the file has them,
/// and holds zeros from there to its end.
pub proof fn law_memory_is_file_then_zeros(bytes: Seq<u8>, segment: Segment)
    requires
        segment_fits(segment, bytes.len() as int),
    ensures
        segment_memory(bytes, segment).len() == segment.memory_size,
        forall|i: int|
            0 <= i < segment.file_size ==> #[trigger] segment_memory(bytes, segment)[i]
                == bytes[segment.file_offset + i],
        forall|i: int|
            segment.file_size <= i < segment.memory_size ==> #[trigger] segment_memory(
                bytes,
                segment,
            )[i] == 0,
{
}

/// The first overlapping pair among `segments`, if any.
pub fn find_overlap(segments: &Vec<Segment>) -> (found: Option<(usize, usize)>)
    ensures
        match found {
            Some((i, j)) => first_overlap(segments@, i as int, j as int),
            None => pairwise_disjoint(segments@),
        },
{
    let n: usize = segments.len();
    let mut i: usize = 0;
    while i < n
        invariant
            n == segments.len(),
            i <= n,
            forall|p: int, q: int|
                0 <= p < i && p < q < n ==> !overlap(#[trigger] segments@[p], #[trigger] segments@[q]),
        decreases n - i,
    {
        let mut j: usize = i + 1;
        while j < n
            invariant
                n == segments.len(),
                i < j <= n,
                forall|p: int, q: int|
                    0 <= p < i && p < q < n ==> !overlap(
                        #[trigger] segments@[p],
                        #[trigger] segments@[q],
                    ),
                forall|q: int| i < q < j ==> !overlap(segments@[i as int], #[trigger] segments@[q]),
            decreases n - j,
        {
            if overlaps(&segments[i], &segments[j]) {
                return Some((i, j));
            }
            j += 1;
        }
        i += 1;
    }
    None
}

/// Whether the address ranges of `a` and `b` meet.
pub fn overlaps(a: &Segment, b: &Segment) -> (r: bool)
    ensures
        r == overlap(*a, *b),
{
    a.memory_size > 0 && b.memory_size > 0 && a.virtual_address as u128 + (a.memory_size as u128)
        > b.virtual_address as u128 && b.virtual_address as u128 + (b.memory_size as u128)
        > a.virtual_address as u128
}

/// The bytes that the region of `segment` is to hold.
pub fn fill_bytes(bytes: &[u8], segment: &Segment) -> (memory: Vec<u8>)
    requires
        segment_fits(*segment, bytes.len() as int),
        segment.memory_size <= usize::MAX,
    ensures
        memory@ == segment_memory(bytes@, *segment),
{
    let start: usize = segment.file_offset as usize;
    let end: usize = start + segment.file_size as usize;
    let mut memory: Vec<u8> = slice_to_vec(slice_subrange(bytes, start, end));
    memory.resize(segment.memory_size as usize, 0u8);
    assert(memory@ =~= segment_memory(bytes@, *segment));
    memory
}

/// The bytes that the region of `segment` is to hold, where the segment is
/// sound in `bytes` and no larger than the address space.
pub fn segment_bytes(bytes: &[u8], segment: &Segment) -> (memory: Option<Vec<u8>>)
    ensures
        match memory {
            Some(m) => segment_fits(*segment, bytes.len() as int) && m@ == segment_memory(
                bytes@,
                *segment,
            ),
            None => !segment_fits(*segment, bytes.len() as int) || segment.memory_size
                > usize::MAX,
        },
{
    let len: u64 = bytes.len() as u64;
    if segment.file_size > len || segment.file_offset > len - segment.file_size
        || segment.memory_size < segment.file_size || segment.memory_size > usize::MAX as u64 {
        None
    } else {
        Some(fill_bytes(bytes, segment))
    }
}

/// A placer as contracts see it: the segments to place, and those placed so far.
pub struct PlacerState {
    pub segments: Seq<Segment>,
    pub placed: Seq<PlacedSegment>,
}

/// What every placer satisfies: its segments are disjoint, and the placed
/// ones are the first of them, in order, each with a region that serves it.
pub open spec fn placement_sound(state: PlacerState) -> bool {
    &&& pairwise_disjoint(state.segments)
    &&& state.placed.len() <= state.segments.len()
    &&& forall|i: int|
        0 <= i < state.placed.len() ==> {
            &&& (#[trigger] state.placed[i]).segment == state.segments[i]
            &&& region_serves(state.placed[i].backing_region, state.segments[i])
        }
}

/// Why `answer` cannot serve the next segment of `state`, if it cannot.
pub open spec fn answer_fault(state: PlacerState, answer: Option<Region>) -> Option<
    AllocationFault,
> {
    let next = state.placed.len() as int;
    if next >= state.segments.len() {
        Some(AllocationFault::Unrequested)
    } else {
        match answer {
            None => Some(AllocationFault::Refused),
            Some(region) => if state.segments[next].memory_size > usize::MAX {
                Some(AllocationFault::TooLarge)
            } else if region.size < state.segments[next].memory_size {
                Some(AllocationFault::TooSmall)
            } else if !region_serves(region, state.segments[next]) {
                Some(AllocationFault::Misaligned)
            } else {
                None
            },
        }
    }
}

/// `state` after the allocator's `answer`: one more segment is placed where
/// the answer serves it, and nothing changes where it does not.
pub open spec fn after_answer(state: PlacerState, answer: Option<Region>) -> PlacerState {
    if answer_fault(state, answer) is None {
        PlacerState {
            segments: state.segments,
            placed: state.placed.push(
                PlacedSegment {
                    segment: state.segments[state.placed.len() as int],
                    backing_region: answer->Some_0,
                },
            ),
        }
    } else {
        state
    }
}

/// Places the segments of one image, one allocation at a time.
#[derive(Debug)]
pub struct SegmentPlacer {
    segments: Vec<Segment>,
    placed: Vec<PlacedSegment>,
}

impl SegmentPlacer {
    #[verifier::type_invariant]
    spec fn well_formed(&self) -> bool {
        placement_sound(self.view())
    }

    /// The segments to place and those placed so far.
    pub closed spec fn view(&self) -> PlacerState {
        PlacerState { segments: self.segments@, placed: self.placed@ }
    }

    /// A placer for `segments`, unless two of them overlap: then nothing is
    /// placed and nothing will be asked of the allocator.
    pub fn new(segments: Vec<Segment>) -> (outcome: Result<SegmentPlacer, SegmentOverlapError>)
        ensures
            match outcome {
                Ok(placer) => {
                    &&& pairwise_disjoint(segments@)
                    &&& placer@.segments == segments@
                    &&& placer@.placed.len() == 0
                },
                Err(fault) => first_overlap(segments@, fault.first as int, fault.second as int),
            },
    {
        match find_overlap(&segments) {
            Some((first, second)) => Err(SegmentOverlapError { first, second }),
            None => Ok(SegmentPlacer { segments, placed: Vec::new() }),
        }
    }

    /// Whether every segment has its region.
    pub fn is_complete(&self) -> (r: bool)
        ensures
            r == (self@.placed.len() == self@.segments.len()),
            placement_sound(self@),
    {
        proof {
            use_type_invariant(self);
        }
        self.placed.len() == self.segments.len()
    }

    /// What to ask the allocator for next; nothing once every segment is placed.
    pub fn next_request(&self) -> (request: Option<AllocationRequest>)
        ensures
            placement_sound(self@),
            match request {
                Some(r) => self@.placed.len() < self@.segments.len() && r == request_for(
                    self@.segments[self@.placed.len() as int],
                ),
                None => self@.placed.len() == self@.segments.len(),
            },
    {
        proof {
            use_type_invariant(self);
        }
        let next: usize = self.placed.len();
        if next < self.segments.len() {
            let segment = &self.segments[next];
            Some(AllocationRequest { size: segment.memory_size, alignment: segment.alignment })
        } else {
            None
        }
    }

    /// Takes the allocator's answer to the last request: `None` where it
    /// had no memory to give.
    pub fn record(&mut self, answer: Option<Region>) -> (outcome: Result<
        (),
        SegmentAllocationError,
    >)
        ensures
            final(self)@ == after_answer(old(self)@, answer),
            placement_sound(final(self)@),
            match outcome {
                Ok(()) => answer_fault(old(self)@, answer) is None,
                Err(fault) => {
                    &&& fault.index == old(self)@.placed.len()
                    &&& answer_fault(old(self)@, answer) == Some(fault.fault)
                },
            },
    {
        proof {
            use_type_invariant(&*self);
        }
        let index: usize = self.placed.len();
        if index >= self.segments.len() {
            return Err(SegmentAllocationError { index, fault: AllocationFault::Unrequested });
        }
        let segment: Segment = self.segments[index];
        match answer {
            None => Err(SegmentAllocationError { index, fault: AllocationFault::Refused }),
            Some(region) => {
                if segment.memory_size > usize::MAX as u64 {
                    Err(SegmentAllocationError { index, fault: AllocationFault::TooLarge })
                } else if region.size < segment.memory_size {
                    Err(SegmentAllocationError { index, fault: AllocationFault::TooSmall })
                } else if segment.alignment > 1 && region.base % segment.alignment != 0 {
                    Err(SegmentAllocationError { index, fault: AllocationFault::Misaligned })
                } else {
                    let SegmentPlacer { segments, mut placed } = self.take();
                    placed.push(PlacedSegment { segment, backing_region: region });
                    *self = SegmentPlacer { segments, placed };
                    Ok(())
                }
            },
        }
    }

    /// The segments to place.
    pub fn segments(&self) -> (segments: &Vec<Segment>)
        ensures
            segments@ == self@.segments,
            placement_sound(self@),
    {
        proof {
            use_type_invariant(self);
        }
        &self.segments
    }

    /// The segments placed so far.
    pub fn placed(&self) -> (placed: &Vec<PlacedSegment>)
        ensures
            placed@ == self@.placed,
            placement_sound(self@),
    {
        proof {
            use_type_invariant(self);
        }
        &self.placed
    }

    /// The placed segments, in the order of the image.
    pub fn into_placed(self) -> (placed: Vec<PlacedSegment>)
        ensures
            placed@ == self@.placed,
            placement_sound(self@),
    {
        proof {
            use_type_invariant(&self);
        }
        self.placed
    }

    /// Moves the contents out and leaves a placer with nothing to place.
    fn take(&mut self) -> (taken: SegmentPlacer)
        ensures
            taken == *old(self),
    {
        let mut taken = SegmentPlacer { segments: Vec::new(), placed: Vec::new() };
        core::mem::swap(self, &mut taken);
        taken
    }
}

} // verus!
