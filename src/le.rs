//! Little-endian integers inside byte buffers.
use vstd::prelude::*;

verus! {

/// The 16-bit little-endian integer at `i` in `s`.
pub open spec fn le16(s: Seq<u8>, i: int) -> int {
    s[i] as int + 256 * (s[i + 1] as int)
}

/// The 32-bit little-endian integer at `i` in `s`.
pub open spec fn le32(s: Seq<u8>, i: int) -> int {
    le16(s, i) + 65536 * le16(s, i + 2)
}

/// The 64-bit little-endian integer at `i` in `s`.
pub open spec fn le64(s: Seq<u8>, i: int) -> int {
    le32(s, i) + 4294967296 * le32(s, i + 4)
}

pub fn read_u16(b: &[u8], i: usize) -> (r: u16)
    requires
        i + 2 <= b@.len(),
    ensures
        r as int == le16(b@, i as int),
{
    b[i] as u16 + 256 * (b[i + 1] as u16)
}

pub fn read_u32(b: &[u8], i: usize) -> (r: u32)
    requires
        i + 4 <= b@.len(),
    ensures
        r as int == le32(b@, i as int),
{
    let _n = b.len();
    let lo = read_u16(b, i);
    let hi = read_u16(b, i + 2);
    lo as u32 + 65536 * (hi as u32)
}

pub fn read_u64(b: &[u8], i: usize) -> (r: u64)
    requires
        i + 8 <= b@.len(),
    ensures
        r as int == le64(b@, i as int),
{
    let _n = b.len();
    let lo = read_u32(b, i);
    let hi = read_u32(b, i + 4);
    lo as u64 + 4294967296 * (hi as u64)
}

} // verus!
