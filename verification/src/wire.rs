//! Little-endian field readers over byte slices, and their specifications.

use vstd::prelude::*;
use vstd::bytes::{spec_u16_from_le_bytes, spec_u32_from_le_bytes, u16_from_le_bytes,
    u32_from_le_bytes};
use vstd::slice::{slice_index_get, slice_subrange};

verus! {

/// The 16-bit little-endian value held in the two bytes of `b` at offset
/// `off`.
pub open spec fn spec_le16(b: Seq<u8>, off: int) -> u16
    recommends
        0 <= off,
        off + 2 <= b.len(),
{
    spec_u16_from_le_bytes(b.subrange(off, off + 2))
}

/// The 32-bit little-endian value held in the four bytes of `b` at offset
/// `off`.
pub open spec fn spec_le32(b: Seq<u8>, off: int) -> u32
    recommends
        0 <= off,
        off + 4 <= b.len(),
{
    spec_u32_from_le_bytes(b.subrange(off, off + 4))
}

/// Reads the byte of `b` at offset `off`.
pub fn read_u8(b: &[u8], off: usize) -> (x: u8)
    requires
        off < b@.len(),
    ensures
        x == b@[off as int],
{
    *slice_index_get(b, off)
}

/// Reads the 16-bit little-endian value of `b` at offset `off`.
pub fn read_u16(b: &[u8], off: usize) -> (x: u16)
    requires
        off + 2 <= b@.len(),
    ensures
        x == spec_le16(b@, off as int),
{
    proof {
        vstd::slice::axiom_spec_len(b);
    }
    u16_from_le_bytes(slice_subrange(b, off, off + 2))
}

/// Reads the 32-bit little-endian value of `b` at offset `off`.
pub fn read_u32(b: &[u8], off: usize) -> (x: u32)
    requires
        off + 4 <= b@.len(),
    ensures
        x == spec_le32(b@, off as int),
{
    proof {
        vstd::slice::axiom_spec_len(b);
    }
    u32_from_le_bytes(slice_subrange(b, off, off + 4))
}

} // verus!
