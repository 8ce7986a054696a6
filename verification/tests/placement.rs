use befiboot::image::{ExecutableImage, Segment, SegmentFlags};
use befiboot::placement::{
    fill_bytes, find_overlap, overlaps, segment_bytes, AllocationFault, AllocationRequest,
    PlacedSegment, Region, SegmentAllocationError, SegmentOverlapError, SegmentPlacer,
};

fn segment(address: u64, memory_size: u64) -> Segment {
    Segment {
        virtual_address: address,
        file_offset: 0,
        file_size: 0,
        memory_size,
        flags: SegmentFlags { readable: true, writable: false, executable: false },
        alignment: 0x1000,
    }
}

fn part(file_offset: u64, file_size: u64, memory_size: u64) -> Segment {
    Segment { file_offset, file_size, ..segment(0x1000, memory_size) }
}

#[test]
fn ranges_that_share_an_address_overlap() {
    assert!(overlaps(&segment(0x1000, 0x1000), &segment(0x1fff, 1)));
    assert!(overlaps(&segment(0x1fff, 1), &segment(0x1000, 0x1000)));
    assert!(overlaps(&segment(0x1000, 0x1000), &segment(0x1000, 0x1000)));
    assert!(overlaps(&segment(0, u64::MAX), &segment(u64::MAX - 1, u64::MAX)));
}

#[test]
fn ranges_that_touch_do_not_overlap() {
    assert!(!overlaps(&segment(0x1000, 0x1000), &segment(0x2000, 0x1000)));
    assert!(!overlaps(&segment(0x2000, 0x1000), &segment(0x1000, 0x1000)));
    assert!(!overlaps(&segment(u64::MAX, 1), &segment(0, u64::MAX)));
}

#[test]
fn an_empty_range_overlaps_nothing() {
    assert!(!overlaps(&segment(0x1800, 0), &segment(0x1000, 0x1000)));
    assert!(!overlaps(&segment(0x1000, 0x1000), &segment(0x1800, 0)));
    assert!(!overlaps(&segment(0x1800, 0), &segment(0x1800, 0)));
}

#[test]
fn the_first_overlapping_pair_is_found() {
    let segments = vec![
        segment(0x1000, 0x1000),
        segment(0x5000, 0x1000),
        segment(0x5800, 0x1000),
        segment(0x1800, 0x100),
        segment(0x1900, 0x100),
    ];
    assert_eq!(find_overlap(&segments), Some((0, 3)));
    assert_eq!(find_overlap(&segments[1..].to_vec()), Some((0, 1)));
    assert_eq!(find_overlap(&vec![segments[0], segments[1]]), None);
    assert_eq!(find_overlap(&Vec::new()), None);
}

#[test]
fn overlapping_segments_are_refused_before_anything_is_asked() {
    let outcome = SegmentPlacer::new(vec![segment(0x1000, 0x2000), segment(0x2000, 0x1000)]);
    assert_eq!(outcome.unwrap_err(), SegmentOverlapError { first: 0, second: 1 });
}

#[test]
fn segments_are_placed_in_order() {
    let segments = vec![segment(0x3000, 0x800), segment(0x1000, 0x10), segment(0x2000, 0)];
    let mut placer = SegmentPlacer::new(segments.clone()).unwrap();
    assert_eq!(placer.segments(), &segments);
    let regions = [
        Region { base: 0x10_0000, size: 0x1000 },
        Region { base: 0x20_0000, size: 0x10 },
        Region { base: 0x30_0000, size: 0 },
    ];
    for (segment, region) in segments.iter().zip(regions) {
        assert!(!placer.is_complete());
        assert_eq!(
            placer.next_request(),
            Some(AllocationRequest { size: segment.memory_size, alignment: 0x1000 })
        );
        assert_eq!(placer.record(Some(region)), Ok(()));
    }
    assert!(placer.is_complete());
    assert_eq!(placer.next_request(), None);
    assert_eq!(placer.placed().len(), 3);
    let placed = placer.into_placed();
    for i in 0..3 {
        assert_eq!(placed[i], PlacedSegment { segment: segments[i], backing_region: regions[i] });
    }
}

#[test]
fn a_refusal_places_nothing() {
    let mut placer = SegmentPlacer::new(vec![segment(0x1000, 0x10)]).unwrap();
    assert_eq!(
        placer.record(None),
        Err(SegmentAllocationError { index: 0, fault: AllocationFault::Refused })
    );
    assert!(placer.placed().is_empty());
    assert_eq!(
        placer.next_request(),
        Some(AllocationRequest { size: 0x10, alignment: 0x1000 })
    );
}

#[test]
fn a_region_that_is_too_small_is_refused() {
    let mut placer =
        SegmentPlacer::new(vec![segment(0x1000, 0x10), segment(0x2000, 0x20)]).unwrap();
    assert_eq!(placer.record(Some(Region { base: 0x1000, size: 0x10 })), Ok(()));
    assert_eq!(
        placer.record(Some(Region { base: 0x2000, size: 0x1f })),
        Err(SegmentAllocationError { index: 1, fault: AllocationFault::TooSmall })
    );
    assert_eq!(placer.placed().len(), 1);
}

#[test]
fn a_misaligned_region_is_refused() {
    let mut placer = SegmentPlacer::new(vec![segment(0x1000, 0x10)]).unwrap();
    assert_eq!(
        placer.record(Some(Region { base: 0x1800, size: 0x10 })),
        Err(SegmentAllocationError { index: 0, fault: AllocationFault::Misaligned })
    );
    assert_eq!(placer.record(Some(Region { base: 0x3000, size: 0x10 })), Ok(()));
}

#[test]
fn an_alignment_of_zero_or_one_asks_for_none() {
    for alignment in [0u64, 1] {
        let mut placer =
            SegmentPlacer::new(vec![Segment { alignment, ..segment(0x1000, 4) }]).unwrap();
        assert_eq!(placer.record(Some(Region { base: 0x1003, size: 4 })), Ok(()));
    }
}

#[test]
fn an_answer_that_nothing_asked_for_is_refused() {
    let mut placer = SegmentPlacer::new(Vec::new()).unwrap();
    assert!(placer.is_complete());
    assert_eq!(
        placer.record(Some(Region { base: 0, size: 0 })),
        Err(SegmentAllocationError { index: 0, fault: AllocationFault::Unrequested })
    );
    assert_eq!(
        placer.record(None),
        Err(SegmentAllocationError { index: 0, fault: AllocationFault::Unrequested })
    );
}

#[test]
fn a_region_holds_the_file_bytes_and_then_zeros() {
    let bytes: Vec<u8> = (1..=32).collect();
    let memory = segment_bytes(&bytes, &part(8, 4, 10)).unwrap();
    assert_eq!(memory, vec![9, 10, 11, 12, 0, 0, 0, 0, 0, 0]);
    assert_eq!(fill_bytes(&bytes, &part(8, 4, 10)), memory);
}

#[test]
fn a_segment_without_file_bytes_is_all_zeros() {
    let bytes: Vec<u8> = (1..=32).collect();
    assert_eq!(segment_bytes(&bytes, &part(32, 0, 3)).unwrap(), vec![0, 0, 0]);
    assert_eq!(segment_bytes(&bytes, &part(0, 0, 0)).unwrap(), Vec::<u8>::new());
}

#[test]
fn a_segment_without_zeros_is_a_copy() {
    let bytes: Vec<u8> = (1..=32).collect();
    assert_eq!(segment_bytes(&bytes, &part(0, 32, 32)).unwrap(), bytes);
}

#[test]
fn an_unsound_segment_has_no_bytes() {
    let bytes: Vec<u8> = (1..=32).collect();
    assert_eq!(segment_bytes(&bytes, &part(30, 3, 3)), None);
    assert_eq!(segment_bytes(&bytes, &part(u64::MAX, 2, 2)), None);
    assert_eq!(segment_bytes(&bytes, &part(0, 4, 3)), None);
}

#[test]
fn a_placed_segment_holds_its_file_bytes_and_then_zeros() {
    let mut bytes = Vec::new();
    bytes.extend_from_slice(&[0x7f, b'E', b'L', b'F', 2, 1, 1, 0]);
    bytes.extend_from_slice(&[0; 8]);
    bytes.extend_from_slice(&2u16.to_le_bytes());
    bytes.extend_from_slice(&0x3eu16.to_le_bytes());
    bytes.extend_from_slice(&1u32.to_le_bytes());
    bytes.extend_from_slice(&0x1000u64.to_le_bytes());
    bytes.extend_from_slice(&64u64.to_le_bytes());
    bytes.extend_from_slice(&0u64.to_le_bytes());
    bytes.extend_from_slice(&0u32.to_le_bytes());
    bytes.extend_from_slice(&64u16.to_le_bytes());
    bytes.extend_from_slice(&56u16.to_le_bytes());
    bytes.extend_from_slice(&1u16.to_le_bytes());
    bytes.extend_from_slice(&[0; 6]);
    bytes.extend_from_slice(&1u32.to_le_bytes());
    bytes.extend_from_slice(&7u32.to_le_bytes());
    bytes.extend_from_slice(&120u64.to_le_bytes());
    bytes.extend_from_slice(&0x1000u64.to_le_bytes());
    bytes.extend_from_slice(&0u64.to_le_bytes());
    bytes.extend_from_slice(&5u64.to_le_bytes());
    bytes.extend_from_slice(&12u64.to_le_bytes());
    bytes.extend_from_slice(&8u64.to_le_bytes());
    bytes.extend_from_slice(&[0xde, 0xad, 0xbe, 0xef, 0x99]);

    let image = ExecutableImage::parse(bytes.clone()).unwrap();
    let mut placer = SegmentPlacer::new(image.segments().clone()).unwrap();
    assert_eq!(placer.next_request(), Some(AllocationRequest { size: 12, alignment: 8 }));
    let region = Region { base: 0x8000, size: 4096 };
    assert_eq!(placer.record(Some(region)), Ok(()));
    let placed = placer.into_placed();
    assert_eq!(placed.len(), 1);
    assert_eq!(placed[0].backing_region, region);
    assert_eq!(placed[0].segment, image.segments()[0]);

    let memory = segment_bytes(image.bytes(), &placed[0].segment).unwrap();
    assert_eq!(memory.len(), 12);
    assert_eq!(&memory[..5], &bytes[120..125]);
    assert_eq!(&memory[5..], &[0u8; 7]);
}
