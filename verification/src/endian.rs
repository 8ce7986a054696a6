//! Little-endian integers in a byte buffer.

use vstd::prelude::*;

verus! {

/// The 16-bit little-endian integer that starts at `at`.
pub open spec fn le_u16_at(b: Seq<u8>, at: int) -> int {
    b[at] as int + 0x100 * (b[at + 1] as int)
}

/// The 32-bit little-endian integer that starts at `at`.
pub open spec fn le_u32_at(b: Seq<u8>, at: int) -> int {
    le_u16_at(b, at) + 0x1_0000 * le_u16_at(b, at + 2)
}

/// The 64-bit little-endian integer that starts at `at`.
pub open spec fn le_u64_at(b: Seq<u8>, at: int) -> int {
    le_u32_at(b, at) + 0x1_0000_0000 * le_u32_at(b, at + 4)
}

/// Reads the 16-bit little-endian integer at `at`.
pub fn read_u16(b: &[u8], at: usize) -> (value: u16)
    requires
        at + 2 <= b.len(),
    ensures
        value == le_u16_at(b@, at as int),
{
    let low: u16 = b[at] as u16;
    let high: u16 = b[at + 1] as u16;
    low + 0x100 * high
}

/// Reads the 32-bit little-endian integer at `at`.
pub fn read_u32(b: &[u8], at: usize) -> (value: u32)
    requires
        at + 4 <= b.len(),
    ensures
        value == le_u32_at(b@, at as int),
{
    let low: u32 = read_u16(b, at) as u32;
    let high: u32 = read_u16(b, at + 2) as u32;
    low + 0x1_0000 * high
}

/// Reads the 64-bit little-endian integer at `at`.
pub fn read_u64(b: &[u8], at: usize) -> (value: u64)
    requires
        at + 8 <= b.len(),
    ensures
        value == le_u64_at(b@, at as int),
{
    let low: u64 = read_u32(b, at) as u64;
    let high: u64 = read_u32(b, at + 4) as u64;
    low + 0x1_0000_0000 * high
}

} // verus!
