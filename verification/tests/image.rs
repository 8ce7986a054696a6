use befiboot::endian::{read_u16, read_u32, read_u64};
use befiboot::image::{
    check_header, check_segment, read_segment, read_segments, ElfFormatError, ExecutableImage,
    Segment, SegmentFlags,
};

const LOAD: u32 = 1;
const NOTE: u32 = 4;

struct Header {
    kind: u32,
    flags: u32,
    offset: u64,
    address: u64,
    file_size: u64,
    memory_size: u64,
    alignment: u64,
}

fn load(flags: u32, offset: u64, address: u64, file_size: u64, memory_size: u64) -> Header {
    Header { kind: LOAD, flags, offset, address, file_size, memory_size, alignment: 0x1000 }
}

/// A 64-bit little-endian x86-64 image: file header, program headers, then
/// `payload` bytes of 0xAB, 0xAC, ...
fn image(entry: u64, headers: &[Header], payload: usize) -> Vec<u8> {
    let mut out = Vec::new();
    out.extend_from_slice(&[0x7f, b'E', b'L', b'F', 2, 1, 1, 0]);
    out.extend_from_slice(&[0; 8]);
    out.extend_from_slice(&2u16.to_le_bytes());
    out.extend_from_slice(&0x3eu16.to_le_bytes());
    out.extend_from_slice(&1u32.to_le_bytes());
    out.extend_from_slice(&entry.to_le_bytes());
    out.extend_from_slice(&64u64.to_le_bytes());
    out.extend_from_slice(&0u64.to_le_bytes());
    out.extend_from_slice(&0u32.to_le_bytes());
    out.extend_from_slice(&64u16.to_le_bytes());
    out.extend_from_slice(&56u16.to_le_bytes());
    out.extend_from_slice(&(headers.len() as u16).to_le_bytes());
    out.extend_from_slice(&[0; 6]);
    assert_eq!(out.len(), 64);
    for header in headers {
        out.extend_from_slice(&header.kind.to_le_bytes());
        out.extend_from_slice(&header.flags.to_le_bytes());
        out.extend_from_slice(&header.offset.to_le_bytes());
        out.extend_from_slice(&header.address.to_le_bytes());
        out.extend_from_slice(&0u64.to_le_bytes());
        out.extend_from_slice(&header.file_size.to_le_bytes());
        out.extend_from_slice(&header.memory_size.to_le_bytes());
        out.extend_from_slice(&header.alignment.to_le_bytes());
    }
    for i in 0..payload {
        out.push(0xab_u8.wrapping_add(i as u8));
    }
    out
}

fn fault_of(bytes: Vec<u8>) -> ElfFormatError {
    ExecutableImage::parse(bytes).unwrap_err()
}

fn sample() -> Vec<u8> {
    image(
        0x40_1000,
        &[
            load(5, 176, 0x40_0000, 8, 8),
            Header {
                kind: NOTE,
                flags: 4,
                offset: 0,
                address: 0,
                file_size: 1 << 40,
                memory_size: 0,
                alignment: 4,
            },
            load(6, 184, 0x40_2000, 4, 0x100),
        ],
        64,
    )
}

#[test]
fn integers_are_read_little_endian() {
    let bytes = [0x01, 0x02, 0x03, 0x04, 0x05, 0x06, 0x07, 0x08, 0xff];
    assert_eq!(read_u16(&bytes, 0), 0x0201);
    assert_eq!(read_u16(&bytes, 7), 0xff08);
    assert_eq!(read_u32(&bytes, 1), 0x0504_0302);
    assert_eq!(read_u64(&bytes, 0), 0x0807_0605_0403_0201);
    assert_eq!(read_u64(&[0xff; 8], 0), u64::MAX);
}

#[test]
fn a_valid_image_gives_entry_and_segments() {
    let bytes = sample();
    let image = ExecutableImage::parse(bytes.clone()).unwrap();
    assert_eq!(image.entry_address(), 0x40_1000);
    assert_eq!(image.bytes(), &bytes);
    assert_eq!(
        image.segments(),
        &vec![
            Segment {
                virtual_address: 0x40_0000,
                file_offset: 176,
                file_size: 8,
                memory_size: 8,
                flags: SegmentFlags { readable: true, writable: false, executable: true },
                alignment: 0x1000,
            },
            Segment {
                virtual_address: 0x40_2000,
                file_offset: 184,
                file_size: 4,
                memory_size: 0x100,
                flags: SegmentFlags { readable: true, writable: true, executable: false },
                alignment: 0x1000,
            },
        ]
    );
}

#[test]
fn an_image_gives_up_its_parts() {
    let bytes = sample();
    let (buffer, entry, segments) = ExecutableImage::parse(bytes.clone()).unwrap().into_parts();
    assert_eq!(buffer, bytes);
    assert_eq!(entry, 0x40_1000);
    assert_eq!(segments.len(), 2);
}

#[test]
fn an_image_without_program_headers_has_no_segments() {
    let image = ExecutableImage::parse(image(7, &[], 0)).unwrap();
    assert_eq!(image.entry_address(), 7);
    assert!(image.segments().is_empty());
}

#[test]
fn xmas_elf_reads_the_same_fields() {
    let bytes = sample();
    let mut room = vec![0u8; bytes.len() + 8];
    let pad = room.as_ptr().align_offset(8);
    room[pad..pad + bytes.len()].copy_from_slice(&bytes);
    let elf = xmas_elf::ElfFile::new(&room[pad..pad + bytes.len()]).unwrap();
    let image = ExecutableImage::parse(bytes).unwrap();
    assert_eq!(elf.header.pt2.entry_point(), image.entry_address());
    let loadable: Vec<Segment> = elf
        .program_iter()
        .filter(|header| header.get_type() == Ok(xmas_elf::program::Type::Load))
        .map(|header| Segment {
            virtual_address: header.virtual_addr(),
            file_offset: header.offset(),
            file_size: header.file_size(),
            memory_size: header.mem_size(),
            flags: SegmentFlags {
                readable: header.flags().is_read(),
                writable: header.flags().is_write(),
                executable: header.flags().is_execute(),
            },
            alignment: header.align(),
        })
        .collect();
    assert_eq!(&loadable, image.segments());
}

#[test]
fn a_short_buffer_is_rejected() {
    assert_eq!(fault_of(Vec::new()), ElfFormatError::HeaderTooShort);
    let mut bytes = image(0, &[], 0);
    bytes.truncate(63);
    assert_eq!(fault_of(bytes), ElfFormatError::HeaderTooShort);
    assert_eq!(check_header(&[0x7f, b'E', b'L', b'F']), Some(ElfFormatError::HeaderTooShort));
}

#[test]
fn a_corrupted_magic_is_rejected() {
    for at in 0..4 {
        let mut bytes = sample();
        bytes[at] ^= 0x20;
        assert_eq!(fault_of(bytes), ElfFormatError::BadMagic);
    }
}

#[test]
fn a_corrupted_magic_is_rejected_whatever_follows() {
    let mut bytes = sample();
    bytes[0] = 0;
    for at in 4..bytes.len() {
        bytes[at] = 0xff;
    }
    assert_eq!(fault_of(bytes), ElfFormatError::BadMagic);
}

#[test]
fn a_short_buffer_comes_before_a_bad_magic() {
    assert_eq!(fault_of(vec![0u8; 20]), ElfFormatError::HeaderTooShort);
}

#[test]
fn a_class_other_than_64_bit_is_rejected() {
    for class in [0u8, 1, 3, 0xff] {
        let mut bytes = sample();
        bytes[4] = class;
        assert_eq!(fault_of(bytes), ElfFormatError::UnsupportedClass, "class {}", class);
    }
}

#[test]
fn a_byte_order_other_than_little_endian_is_rejected() {
    for data in [0u8, 2, 9] {
        let mut bytes = sample();
        bytes[5] = data;
        assert_eq!(fault_of(bytes), ElfFormatError::UnsupportedByteOrder);
    }
}

#[test]
fn a_machine_other_than_x86_64_is_rejected() {
    let mut bytes = sample();
    bytes[18] = 0xb7;
    assert_eq!(fault_of(bytes), ElfFormatError::UnsupportedMachine);
    let mut bytes = sample();
    bytes[19] = 1;
    assert_eq!(fault_of(bytes), ElfFormatError::UnsupportedMachine);
}

#[test]
fn header_checks_run_in_order() {
    let mut bytes = sample();
    bytes[4] = 1;
    bytes[5] = 2;
    bytes[18] = 0;
    assert_eq!(fault_of(bytes.clone()), ElfFormatError::UnsupportedClass);
    bytes[4] = 2;
    assert_eq!(fault_of(bytes.clone()), ElfFormatError::UnsupportedByteOrder);
    bytes[5] = 1;
    assert_eq!(fault_of(bytes.clone()), ElfFormatError::UnsupportedMachine);
    bytes[18] = 0x3e;
    assert_eq!(check_header(&bytes), None);
}

#[test]
fn a_program_header_table_outside_the_buffer_is_rejected() {
    let mut bytes = image(0, &[load(4, 0, 0, 0, 0)], 0);
    bytes.pop();
    assert_eq!(fault_of(bytes), ElfFormatError::ProgramHeadersOutOfBounds);

    let mut bytes = image(0, &[load(4, 0, 0, 0, 0)], 0);
    bytes[32..40].copy_from_slice(&u64::MAX.to_le_bytes());
    assert_eq!(fault_of(bytes), ElfFormatError::ProgramHeadersOutOfBounds);

    let mut bytes = image(0, &[load(4, 0, 0, 0, 0)], 0);
    bytes[56..58].copy_from_slice(&2u16.to_le_bytes());
    assert_eq!(fault_of(bytes), ElfFormatError::ProgramHeadersOutOfBounds);
}

#[test]
fn a_table_that_ends_with_the_buffer_is_accepted() {
    let bytes = image(0, &[load(4, 0, 0, 0, 0)], 0);
    assert_eq!(bytes.len(), 120);
    assert_eq!(check_header(&bytes), None);
}

#[test]
fn program_headers_smaller_than_a_header_are_rejected() {
    let mut bytes = image(0, &[load(4, 0, 0, 0, 0)], 64);
    bytes[54..56].copy_from_slice(&55u16.to_le_bytes());
    assert_eq!(fault_of(bytes), ElfFormatError::ProgramHeadersOutOfBounds);
}

#[test]
fn larger_program_header_entries_are_stepped_over() {
    let mut bytes = image(0, &[], 0);
    bytes[54..56].copy_from_slice(&64u16.to_le_bytes());
    bytes[56..58].copy_from_slice(&2u16.to_le_bytes());
    for address in [0x1000u64, 0x2000] {
        bytes.extend_from_slice(&LOAD.to_le_bytes());
        bytes.extend_from_slice(&4u32.to_le_bytes());
        bytes.extend_from_slice(&0u64.to_le_bytes());
        bytes.extend_from_slice(&address.to_le_bytes());
        bytes.extend_from_slice(&[0; 32]);
        bytes.extend_from_slice(&[0xee; 8]);
    }
    let image = ExecutableImage::parse(bytes).unwrap();
    let addresses: Vec<u64> = image.segments().iter().map(|s| s.virtual_address).collect();
    assert_eq!(addresses, vec![0x1000, 0x2000]);
}

#[test]
fn a_segment_outside_the_buffer_is_rejected() {
    let bytes = image(0, &[load(4, 120, 0x1000, 9, 9)], 8);
    assert_eq!(fault_of(bytes), ElfFormatError::SegmentOutOfBounds);
    let bytes = image(0, &[load(4, u64::MAX, 0x1000, 2, 2)], 8);
    assert_eq!(fault_of(bytes), ElfFormatError::SegmentOutOfBounds);
    let bytes = image(0, &[load(4, 129, 0x1000, 0, 0)], 8);
    assert_eq!(fault_of(bytes), ElfFormatError::SegmentOutOfBounds);
}

#[test]
fn a_segment_that_ends_with_the_buffer_is_accepted() {
    let bytes = image(0, &[load(4, 120, 0x1000, 8, 8)], 8);
    assert_eq!(ExecutableImage::parse(bytes).unwrap().segments().len(), 1);
    let bytes = image(0, &[load(4, 128, 0x1000, 0, 16)], 8);
    assert_eq!(ExecutableImage::parse(bytes).unwrap().segments().len(), 1);
}

#[test]
fn a_segment_smaller_in_memory_than_in_the_file_is_rejected() {
    let bytes = image(0, &[load(4, 120, 0x1000, 8, 7)], 8);
    assert_eq!(fault_of(bytes), ElfFormatError::SegmentSizeMismatch);
}

#[test]
fn the_first_unsound_segment_is_reported() {
    let bytes = image(
        0,
        &[load(4, 232, 0x1000, 8, 8), load(4, 232, 0x2000, 8, 7), load(4, 232, 0x3000, 9, 9)],
        8,
    );
    assert_eq!(fault_of(bytes.clone()), ElfFormatError::SegmentSizeMismatch);
    assert_eq!(read_segments(&bytes), Err(ElfFormatError::SegmentSizeMismatch));
}

#[test]
fn headers_that_are_not_loadable_are_not_checked() {
    let bytes = image(
        0,
        &[Header {
            kind: 2,
            flags: 0,
            offset: u64::MAX,
            address: 0,
            file_size: u64::MAX,
            memory_size: 0,
            alignment: 0,
        }],
        0,
    );
    assert!(ExecutableImage::parse(bytes).unwrap().segments().is_empty());
}

#[test]
fn a_segment_is_read_from_its_header() {
    let bytes = sample();
    let segment = read_segment(&bytes, 64);
    assert_eq!(segment.virtual_address, 0x40_0000);
    assert_eq!(segment.file_offset, 176);
    assert_eq!(segment.alignment, 0x1000);
    assert_eq!(check_segment(&segment, bytes.len()), None);
    assert_eq!(check_segment(&segment, 183), Some(ElfFormatError::SegmentOutOfBounds));
    assert_eq!(check_segment(&segment, 184), None);
}

#[test]
fn flags_are_read_bit_by_bit() {
    for word in 0u32..8 {
        let bytes = image(0, &[load(word | 0xf0, 120, 0, 0, 0)], 0);
        let image = ExecutableImage::parse(bytes).unwrap();
        assert_eq!(
            image.segments()[0].flags,
            SegmentFlags {
                readable: word & 4 != 0,
                writable: word & 2 != 0,
                executable: word & 1 != 0,
            }
        );
    }
}

#[test]
fn every_fault_has_its_reason() {
    assert_eq!(ElfFormatError::SegmentOutOfBounds.reason(), "segment out of bounds");
    let faults = [
        ElfFormatError::HeaderTooShort,
        ElfFormatError::BadMagic,
        ElfFormatError::UnsupportedClass,
        ElfFormatError::UnsupportedByteOrder,
        ElfFormatError::UnsupportedMachine,
        ElfFormatError::ProgramHeadersOutOfBounds,
        ElfFormatError::SegmentOutOfBounds,
        ElfFormatError::SegmentSizeMismatch,
    ];
    for (i, a) in faults.iter().enumerate() {
        assert!(!a.reason().is_empty());
        for b in &faults[i + 1..] {
            assert_ne!(a.reason(), b.reason());
        }
    }
}
