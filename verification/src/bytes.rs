//! Little-endian integer reads over byte slices.
use vstd::prelude::*;

verus! {

/// The little-endian `u16` stored at `b[i..i + 2]`.
pub open spec fn le_u16(b: Seq<u8>, i: int) -> int {
    b[i] + 0x100 * b[i + 1]
}

/// The little-endian `u32` stored at `b[i..i + 4]`.
pub open spec fn le_u32(b: Seq<u8>, i: int) -> int {
    b[i] + 0x100 * b[i + 1] + 0x1_0000 * b[i + 2] + 0x100_0000 * b[i + 3]
}

/// The little-endian `u64` stored at `b[i..i + 8]`.
pub open spec fn le_u64(b: Seq<u8>, i: int) -> int {
    le_u32(b, i) + 0x1_0000_0000 * le_u32(b, i + 4)
}

pub fn read_le_u16(b: &[u8], i: usize) -> (r: u16)
    requires
        i + 2 <= b@.len(),
    ensures
        r == le_u16(b@, i as int),
{
    (b[i] as u16) + 0x100 * (b[i + 1] as u16)
}

pub fn read_le_u32(b: &[u8], i: usize) -> (r: u32)
    requires
        i + 4 <= b@.len(),
    ensures
        r == le_u32(b@, i as int),
{
    (b[i] as u32) + 0x100 * (b[i + 1] as u32) + 0x1_0000 * (b[i + 2] as u32) + 0x100_0000 * (b[i
        + 3] as u32)
}

pub fn read_le_u64(b: &[u8], i: usize) -> (r: u64)
    requires
        i + 8 <= b@.len(),
    ensures
        r == le_u64(b@, i as int),
{
    let _len = b.len();
    let lo = read_le_u32(b, i) as u64;
    let hi = read_le_u32(b, i + 4) as u64;
    lo + 0x1_0000_0000 * hi
}

} // verus!
