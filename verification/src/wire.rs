//! Little-endian primitives for the FUSE wire format.
//!
//! Every multi-byte integer on the FUSE channel is native-endian; the
//! supported targets are little-endian, so the codec is written against
//! little-endian byte sequences throughout.

use vstd::prelude::*;
use vstd::bytes::*;

verus! {

/// The little-endian reading of four bytes starting at `off`.
pub open spec fn le32_at(b: Seq<u8>, off: int) -> u32 {
    spec_u32_from_le_bytes(b.subrange(off, off + 4))
}

/// The little-endian reading of eight bytes starting at `off`.
pub open spec fn le64_at(b: Seq<u8>, off: int) -> u64 {
    spec_u64_from_le_bytes(b.subrange(off, off + 8))
}

/// Append the two little-endian bytes of `x` to `buf`.
pub fn put_u16(buf: &mut Vec<u8>, x: u16)
    ensures
        final(buf)@ == old(buf)@ + spec_u16_to_le_bytes(x),
{
    let mut le: Vec<u8> = u16_to_le_bytes(x);
    buf.append(&mut le);
}

/// Append the four little-endian bytes of `x` to `buf`.
pub fn put_u32(buf: &mut Vec<u8>, x: u32)
    ensures
        final(buf)@ == old(buf)@ + spec_u32_to_le_bytes(x),
{
    let mut le: Vec<u8> = u32_to_le_bytes(x);
    buf.append(&mut le);
}

/// Append the eight little-endian bytes of `x` to `buf`.
pub fn put_u64(buf: &mut Vec<u8>, x: u64)
    ensures
        final(buf)@ == old(buf)@ + spec_u64_to_le_bytes(x),
{
    let mut le: Vec<u8> = u64_to_le_bytes(x);
    buf.append(&mut le);
}

/// Read a `u32` stored little-endian at `off`.
pub fn get_u32(buf: &[u8], off: usize) -> (x: u32)
    requires
        off + 4 <= buf@.len(),
    ensures
        x == le32_at(buf@, off as int),
{
    let n = buf.len();
    let s = vstd::slice::slice_subrange(buf, off, off + 4);
    u32_from_le_bytes(s)
}

/// Read a `u64` stored little-endian at `off`.
pub fn get_u64(buf: &[u8], off: usize) -> (x: u64)
    requires
        off + 8 <= buf@.len(),
    ensures
        x == le64_at(buf@, off as int),
{
    let n = buf.len();
    let s = vstd::slice::slice_subrange(buf, off, off + 8);
    u64_from_le_bytes(s)
}

} // verus!
