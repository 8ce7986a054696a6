//! The kernel image: a 64-bit little-endian ELF executable for x86-64.
//!
//! Validation fails fast, in a fixed order: header length, magic, class,
//! byte order, machine, program-header table. Loadable program headers then
//! become segments, in file order; one whose bytes would lie outside the
//! buffer is rejected, never cut short.

use crate::endian::{le_u16_at, le_u32_at, le_u64_at, read_u16, read_u32, read_u64};
use vstd::prelude::*;
use vstd::slice::slice_subrange;

verus! {

/// Bytes in the identification block that opens the header.
pub const IDENT_LEN: usize = 16;

/// Bytes in the file header.
pub const HEADER_LEN: usize = 64;

/// Bytes in one program header.
pub const PROGRAM_HEADER_LEN: usize = 56;

/// The class byte of a 64-bit image.
pub const CLASS_64: u8 = 2;

/// The byte-order byte of a little-endian image.
pub const DATA_LITTLE_ENDIAN: u8 = 1;

/// The machine field of an x86-64 image.
pub const MACHINE_X86_64: u16 = 0x3e;

/// The type of a program header that is to be loaded.
pub const TYPE_LOAD: u32 = 1;

/// The flag bit of an executable segment.
pub const FLAG_EXECUTE: u32 = 1;

/// The flag bit of a writable segment.
pub const FLAG_WRITE: u32 = 2;

/// The flag bit of a readable segment.
pub const FLAG_READ: u32 = 4;

/// Why a buffer is no kernel image.
#[derive(Debug, Clone, Copy, PartialEq, Eq, Structural)]
pub enum ElfFormatError {
    /// The buffer is shorter than a file header.
    HeaderTooShort,
    /// The buffer does not start with the ELF signature.
    BadMagic,
    /// The image is not a 64-bit one.
    UnsupportedClass,
    /// The image is not little-endian.
    UnsupportedByteOrder,
    /// The image is not for x86-64.
    UnsupportedMachine,
    /// The program-header table does not lie inside the buffer.
    ProgramHeadersOutOfBounds,
    /// The file bytes of a loadable segment do not lie inside the buffer.
    SegmentOutOfBounds,
    /// A loadable segment takes less room in memory than in the file.
    SegmentSizeMismatch,
}

/// The reason that `fault` reports.
pub open spec fn reason_text(fault: ElfFormatError) -> Seq<char> {
    match fault {
        ElfFormatError::HeaderTooShort => "header too short"@,
        ElfFormatError::BadMagic => "bad magic"@,
        ElfFormatError::UnsupportedClass => "unsupported class"@,
        ElfFormatError::UnsupportedByteOrder => "unsupported byte order"@,
        ElfFormatError::UnsupportedMachine => "unsupported machine"@,
        ElfFormatError::ProgramHeadersOutOfBounds => "program headers out of bounds"@,
        ElfFormatError::SegmentOutOfBounds => "segment out of bounds"@,
        ElfFormatError::SegmentSizeMismatch => "segment memory size below file size"@,
    }
}

impl ElfFormatError {
    /// The reason, in words.
    pub fn reason(&self) -> (text: &'static str)
        ensures
            text@ == reason_text(*self),
    {
        match self {
            ElfFormatError::HeaderTooShort => "header too short",
            ElfFormatError::BadMagic => "bad magic",
            ElfFormatError::UnsupportedClass => "unsupported class",
            ElfFormatError::UnsupportedByteOrder => "unsupported byte order",
            ElfFormatError::UnsupportedMachine => "unsupported machine",
            ElfFormatError::ProgramHeadersOutOfBounds => "program headers out of bounds",
            ElfFormatError::SegmentOutOfBounds => "segment out of bounds",
            ElfFormatError::SegmentSizeMismatch => "segment memory size below file size",
        }
    }
}

/// What a segment's memory may be used for.
#[derive(Debug, Clone, Copy, PartialEq, Eq, Structural)]
pub struct SegmentFlags {
    pub readable: bool,
    pub writable: bool,
    pub executable: bool,
}

/// A loadable part of the image.
#[derive(Debug, Clone, Copy, PartialEq, Eq, Structural)]
pub struct Segment {
    pub virtual_address: u64,
    pub file_offset: u64,
    pub file_size: u64,
    pub memory_size: u64,
    pub flags: SegmentFlags,
    pub alignment: u64,
}

/// What a valid buffer holds: where the kernel starts, and what is to be loaded.
pub struct ImageLayout {
    pub entry_address: u64,
    pub segments: Seq<Segment>,
}

/// What `xmas_elf` makes of an identification block.
#[derive(Debug, Clone, Copy, PartialEq, Eq, Structural)]
pub enum IdentVerdict {
    /// The signature is wrong.
    BadMagic,
    /// The signature is right; the class is neither 32-bit nor 64-bit.
    BadClass,
    /// Signature and class are known.
    Known,
}

/// The ELF signature.
pub open spec fn magic() -> Seq<u8> {
    seq![0x7fu8, 0x45u8, 0x4cu8, 0x46u8]
}

/// The verdict on the identification block `ident`.
pub open spec fn ident_verdict(ident: Seq<u8>) -> IdentVerdict {
    if ident.subrange(0, 4) != magic() {
        IdentVerdict::BadMagic
    } else if ident[4] != 1 && ident[4] != 2 {
        IdentVerdict::BadClass
    } else {
        IdentVerdict::Known
    }
}

/// Has `xmas_elf::ElfFile::new` look at an identification block.
///
/// On sixteen bytes that function reads the block and nothing behind it. It
/// answers with one message where the first four bytes are not the ELF
/// signature, with another where the class byte is neither 1 nor 2, and
/// otherwise reports that the rest of the header is missing. The contract
/// tells these three apart and claims nothing else.
#[verifier::external_body]
fn inspect_ident(ident: &[u8]) -> (verdict: IdentVerdict)
    requires
        ident@.len() == IDENT_LEN,
    ensures
        verdict == ident_verdict(ident@),
{
    match xmas_elf::ElfFile::new(ident) {
        Err("Did not find ELF magic number") => IdentVerdict::BadMagic,
        Err("Invalid ELF class") => IdentVerdict::BadClass,
        _ => IdentVerdict::Known,
    }
}

/// The class byte.
pub open spec fn class_of(b: Seq<u8>) -> int {
    b[4] as int
}

/// The byte-order byte.
pub open spec fn data_of(b: Seq<u8>) -> int {
    b[5] as int
}

/// The machine field.
pub open spec fn machine_of(b: Seq<u8>) -> int {
    le_u16_at(b, 18)
}

/// The entry address.
pub open spec fn entry_of(b: Seq<u8>) -> int {
    le_u64_at(b, 24)
}

/// The file offset of the program-header table.
pub open spec fn table_offset(b: Seq<u8>) -> int {
    le_u64_at(b, 32)
}

/// The size of one entry of the program-header table.
pub open spec fn entry_size(b: Seq<u8>) -> int {
    le_u16_at(b, 54)
}

/// The number of entries of the program-header table.
pub open spec fn entry_count(b: Seq<u8>) -> int {
    le_u16_at(b, 56)
}

/// The table is empty, or its entries are whole program headers that all lie inside the buffer.
pub open spec fn table_in_bounds(b: Seq<u8>) -> bool {
    entry_count(b) == 0 || (entry_size(b) >= PROGRAM_HEADER_LEN && table_offset(b) + entry_count(b)
        * entry_size(b) <= b.len())
}

/// The first of the header checks that `b` fails.
pub open spec fn header_fault(b: Seq<u8>) -> Option<ElfFormatError> {
    if b.len() < HEADER_LEN {
        Some(ElfFormatError::HeaderTooShort)
    } else if b.subrange(0, 4) != magic() {
        Some(ElfFormatError::BadMagic)
    } else if class_of(b) != CLASS_64 {
        Some(ElfFormatError::UnsupportedClass)
    } else if data_of(b) != DATA_LITTLE_ENDIAN {
        Some(ElfFormatError::UnsupportedByteOrder)
    } else if machine_of(b) != MACHINE_X86_64 {
        Some(ElfFormatError::UnsupportedMachine)
    } else if !table_in_bounds(b) {
        Some(ElfFormatError::ProgramHeadersOutOfBounds)
    } else {
        None
    }
}

/// Where program header `k` starts.
pub open spec fn program_header_at(b: Seq<u8>, k: int) -> int {
    table_offset(b) + k * entry_size(b)
}

/// The program header at `at` is a loadable one.
pub open spec fn loadable_at(b: Seq<u8>, at: int) -> bool {
    le_u32_at(b, at) == TYPE_LOAD
}

/// The permissions that the flag word `word` grants.
pub open spec fn flags_of(word: u32) -> SegmentFlags {
    SegmentFlags {
        readable: word & FLAG_READ != 0,
        writable: word & FLAG_WRITE != 0,
        executable: word & FLAG_EXECUTE != 0,
    }
}

/// The segment that the program header at `at` describes.
pub open spec fn segment_at(b: Seq<u8>, at: int) -> Segment {
    Segment {
        virtual_address: le_u64_at(b, at + 16) as u64,
        file_offset: le_u64_at(b, at + 8) as u64,
        file_size: le_u64_at(b, at + 32) as u64,
        memory_size: le_u64_at(b, at + 40) as u64,
        flags: flags_of(le_u32_at(b, at + 4) as u32),
        alignment: le_u64_at(b, at + 48) as u64,
    }
}

/// What is wrong with `segment` in a buffer of `len` bytes.
pub open spec fn segment_fault(segment: Segment, len: int) -> Option<ElfFormatError> {
    if segment.file_offset + segment.file_size > len {
        Some(ElfFormatError::SegmentOutOfBounds)
    } else if segment.memory_size < segment.file_size {
        Some(ElfFormatError::SegmentSizeMismatch)
    } else {
        None
    }
}

/// `segment` is sound in a buffer of `len` bytes: its file bytes lie inside,
/// and it takes at least as much room in memory.
pub open spec fn segment_fits(segment: Segment, len: int) -> bool {
    segment_fault(segment, len) is None
}

/// The loadable segments among the first `count` program headers, in file
/// order, or the fault of the first unsound one.
pub open spec fn segments_upto(b: Seq<u8>, count: int) -> Result<Seq<Segment>, ElfFormatError>
    decreases count,
{
    if count <= 0 {
        Ok(Seq::empty())
    } else {
        let at = program_header_at(b, count - 1);
        match segments_upto(b, count - 1) {
            Err(fault) => Err(fault),
            Ok(earlier) => if !loadable_at(b, at) {
                Ok(earlier)
            } else {
                match segment_fault(segment_at(b, at), b.len() as int) {
                    Some(fault) => Err(fault),
                    None => Ok(earlier.push(segment_at(b, at))),
                }
            },
        }
    }
}

/// What the buffer `b` holds: a layout, or the first violation.
pub open spec fn layout_of(b: Seq<u8>) -> Result<ImageLayout, ElfFormatError> {
    match header_fault(b) {
        Some(fault) => Err(fault),
        None => match segments_upto(b, entry_count(b)) {
            Err(fault) => Err(fault),
            Ok(segments) => Ok(ImageLayout { entry_address: entry_of(b) as u64, segments }),
        },
    }
}

/// Every segment of a layout is sound in the buffer that it was read from.
pub proof fn lemma_segments_fit(b: Seq<u8>, count: int)
    requires
        segments_upto(b, count) is Ok,
    ensures
        forall|i: int|
            0 <= i < segments_upto(b, count)->Ok_0.len() ==> segment_fits(
                #[trigger] segments_upto(b, count)->Ok_0[i],
                b.len() as int,
            ),
    decreases count,
{
    if count > 0 {
        lemma_segments_fit(b, count - 1);
    }
}

/// A buffer that does not start with the ELF signature is rejected, and
/// for nothing that lies behind the header: where it is long enough to hold
/// a header it is rejected for its signature, whatever its program headers say.
pub proof fn law_bad_magic_rejected(b: Seq<u8>)
    requires
        b.len() < 4 || b.subrange(0, 4) != magic(),
    ensures
        layout_of(b) == Err::<ImageLayout, ElfFormatError>(
            if b.len() < HEADER_LEN {
                ElfFormatError::HeaderTooShort
            } else {
                ElfFormatError::BadMagic
            },
        ),
{
}

/// A layout holds only segments that are sound in the buffer.
pub proof fn law_layout_segments_fit(b: Seq<u8>)
    requires
        layout_of(b) is Ok,
    ensures
        forall|i: int|
            0 <= i < layout_of(b)->Ok_0.segments.len() ==> segment_fits(
                #[trigger] layout_of(b)->Ok_0.segments[i],
                b.len() as int,
            ),
{
    lemma_segments_fit(b, entry_count(b));
}

/// Runs the header checks, in order.
pub fn check_header(b: &[u8]) -> (fault: Option<ElfFormatError>)
    ensures
        fault == header_fault(b@),
{
    if b.len() < HEADER_LEN {
        return Some(ElfFormatError::HeaderTooShort);
    }
    let ident = slice_subrange(b, 0, IDENT_LEN);
    assert(ident@.subrange(0, 4) =~= b@.subrange(0, 4));
    assert(ident@[4] == b@[4]);
    match inspect_ident(ident) {
        IdentVerdict::BadMagic => {
            return Some(ElfFormatError::BadMagic);
        },
        IdentVerdict::BadClass => {
            return Some(ElfFormatError::UnsupportedClass);
        },
        IdentVerdict::Known => {},
    }
    if b[4] != CLASS_64 {
        return Some(ElfFormatError::UnsupportedClass);
    }
    if b[5] != DATA_LITTLE_ENDIAN {
        return Some(ElfFormatError::UnsupportedByteOrder);
    }
    if read_u16(b, 18) != MACHINE_X86_64 {
        return Some(ElfFormatError::UnsupportedMachine);
    }
    let count: u64 = read_u16(b, 56) as u64;
    let size: u64 = read_u16(b, 54) as u64;
    let offset: u64 = read_u64(b, 32);
    let len: u64 = b.len() as u64;
    if count != 0 {
        if size < PROGRAM_HEADER_LEN as u64 {
            return Some(ElfFormatError::ProgramHeadersOutOfBounds);
        }
        assert(count * size <= 0xffff * 0xffff) by (nonlinear_arith)
            requires
                count <= 0xffff,
                size <= 0xffff,
        ;
        if offset > len || count * size > len - offset {
            return Some(ElfFormatError::ProgramHeadersOutOfBounds);
        }
    }
    None
}

/// Reads the segment that the program header at `at` describes.
pub fn read_segment(b: &[u8], at: usize) -> (segment: Segment)
    requires
        at + PROGRAM_HEADER_LEN <= b.len(),
    ensures
        segment == segment_at(b@, at as int),
{
    let word: u32 = read_u32(b, at + 4);
    Segment {
        virtual_address: read_u64(b, at + 16),
        file_offset: read_u64(b, at + 8),
        file_size: read_u64(b, at + 32),
        memory_size: read_u64(b, at + 40),
        flags: SegmentFlags {
            readable: word & FLAG_READ != 0,
            writable: word & FLAG_WRITE != 0,
            executable: word & FLAG_EXECUTE != 0,
        },
        alignment: read_u64(b, at + 48),
    }
}

/// Checks `segment` against a buffer of `len` bytes.
pub fn check_segment(segment: &Segment, len: usize) -> (fault: Option<ElfFormatError>)
    ensures
        fault == segment_fault(*segment, len as int),
{
    let len: u64 = len as u64;
    if segment.file_size > len || segment.file_offset > len - segment.file_size {
        Some(ElfFormatError::SegmentOutOfBounds)
    } else if segment.memory_size < segment.file_size {
        Some(ElfFormatError::SegmentSizeMismatch)
    } else {
        None
    }
}

/// Collects the loadable segments of a buffer whose header is sound.
pub fn read_segments(b: &[u8]) -> (outcome: Result<Vec<Segment>, ElfFormatError>)
    requires
        header_fault(b@) is None,
    ensures
        match outcome {
            Ok(segments) => segments_upto(b@, entry_count(b@)) == Ok::<
                Seq<Segment>,
                ElfFormatError,
            >(segments@),
            Err(fault) => segments_upto(b@, entry_count(b@)) == Err::<
                Seq<Segment>,
                ElfFormatError,
            >(fault),
        },
{
    let count: usize = read_u16(b, 56) as usize;
    let mut segments: Vec<Segment> = Vec::new();
    if count == 0 {
        return Ok(segments);
    }
    let size: usize = read_u16(b, 54) as usize;
    let mut at: usize = read_u64(b, 32) as usize;
    let mut k: usize = 0;
    while k < count
        invariant
            header_fault(b@) is None,
            count == entry_count(b@),
            size == entry_size(b@),
            count > 0,
            k <= count,
            at == program_header_at(b@, k as int),
            at <= b.len(),
            segments_upto(b@, k as int) == Ok::<Seq<Segment>, ElfFormatError>(segments@),
        decreases count - k,
    {
        assert((k + 1) * size <= count * size) by (nonlinear_arith)
            requires
                k + 1 <= count,
                size >= 0,
        ;
        assert((k + 1) * size == k * size + size) by (nonlinear_arith);
        if read_u32(b, at) == TYPE_LOAD {
            let segment = read_segment(b, at);
            match check_segment(&segment, b.len()) {
                Some(fault) => {
                    proof {
                        lemma_fault_stays(b@, k as int + 1, count as int);
                    }
                    return Err(fault);
                },
                None => {
                    segments.push(segment);
                },
            }
        }
        at += size;
        k += 1;
    }
    Ok(segments)
}

/// Once a program header is at fault, reading further ones changes nothing.
proof fn lemma_fault_stays(b: Seq<u8>, from: int, to: int)
    requires
        from <= to,
        segments_upto(b, from) is Err,
    ensures
        segments_upto(b, to) == segments_upto(b, from),
    decreases to - from,
{
    if from < to {
        lemma_fault_stays(b, from, to - 1);
    }
}

/// A kernel image that passed validation, with the buffer that it was read from.
#[derive(Debug)]
pub struct ExecutableImage {
    bytes: Vec<u8>,
    entry_address: u64,
    segments: Vec<Segment>,
}

impl ExecutableImage {
    /// Entry address and segments are what the buffer holds.
    #[verifier::type_invariant]
    spec fn well_formed(&self) -> bool {
        layout_of(self.bytes@) == Ok::<ImageLayout, ElfFormatError>(self.view())
    }

    /// The layout of the image.
    pub closed spec fn view(&self) -> ImageLayout {
        ImageLayout { entry_address: self.entry_address, segments: self.segments@ }
    }

    /// The buffer of the image.
    pub closed spec fn contents(&self) -> Seq<u8> {
        self.bytes@
    }

    /// Validates `bytes` as a kernel image and takes the buffer over.
    pub fn parse(bytes: Vec<u8>) -> (outcome: Result<ExecutableImage, ElfFormatError>)
        ensures
            match outcome {
                Ok(image) => image.contents() == bytes@ && layout_of(bytes@) == Ok::<
                    ImageLayout,
                    ElfFormatError,
                >(image@),
                Err(fault) => layout_of(bytes@) == Err::<ImageLayout, ElfFormatError>(fault),
            },
    {
        match check_header(bytes.as_slice()) {
            Some(fault) => Err(fault),
            None => match read_segments(bytes.as_slice()) {
                Err(fault) => Err(fault),
                Ok(segments) => {
                    let entry_address = read_u64(bytes.as_slice(), 24);
                    Ok(ExecutableImage { bytes, entry_address, segments })
                },
            },
        }
    }

    /// The address at which the kernel starts.
    pub fn entry_address(&self) -> (address: u64)
        ensures
            address == self@.entry_address,
    {
        self.entry_address
    }

    /// The loadable segments, in file order.
    pub fn segments(&self) -> (segments: &Vec<Segment>)
        ensures
            segments@ == self@.segments,
            layout_of(self.contents()) == Ok::<ImageLayout, ElfFormatError>(self@),
    {
        proof {
            use_type_invariant(self);
        }
        &self.segments
    }

    /// The buffer that the image was read from.
    pub fn bytes(&self) -> (bytes: &Vec<u8>)
        ensures
            bytes@ == self.contents(),
            layout_of(self.contents()) == Ok::<ImageLayout, ElfFormatError>(self@),
    {
        proof {
            use_type_invariant(self);
        }
        &self.bytes
    }

    /// Gives up the image for its buffer, its entry address and its segments.
    pub fn into_parts(self) -> (parts: (Vec<u8>, u64, Vec<Segment>))
        ensures
            parts.0@ == self.contents(),
            parts.1 == self@.entry_address,
            parts.2@ == self@.segments,
            layout_of(self.contents()) == Ok::<ImageLayout, ElfFormatError>(self@),
    {
        proof {
            use_type_invariant(&self);
        }
        (self.bytes, self.entry_address, self.segments)
    }
}

} // verus!
