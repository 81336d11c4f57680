//! Little-endian scalar fields at fixed byte offsets.
//!
//! Every descriptor consumed or produced by this library is a flat byte
//! buffer whose header holds little-endian scalars at fixed offsets.
//! These are the bounds-checked readers and writers for such fields.

use vstd::prelude::*;

verus! {

/// Value of the two little-endian bytes of `b` starting at `off`.
pub open spec fn le16(b: Seq<u8>, off: int) -> nat {
    (b[off] as nat) + 0x100 * (b[off + 1] as nat)
}

/// Value of the four little-endian bytes of `b` starting at `off`.
pub open spec fn le32(b: Seq<u8>, off: int) -> nat {
    (b[off] as nat) + 0x100 * (b[off + 1] as nat) + 0x1_0000 * (b[off + 2] as nat) + 0x100_0000
        * (b[off + 3] as nat)
}

/// The byte of `b` at `off`.
pub fn read_u8(b: &[u8], off: usize) -> (r: u8)
    requires
        off < b@.len(),
    ensures
        r == b@[off as int],
{
    b[off]
}

/// The little-endian 16-bit field of `b` at `off`.
pub fn read_u16_le(b: &[u8], off: usize) -> (r: u16)
    requires
        off + 2 <= b@.len(),
    ensures
        r as nat == le16(b@, off as int),
{
    let lo = b[off] as u16;
    let hi = b[off + 1] as u16;
    lo + hi * 0x100
}

/// The little-endian 32-bit field of `b` at `off`.
pub fn read_u32_le(b: &[u8], off: usize) -> (r: u32)
    requires
        off + 4 <= b@.len(),
    ensures
        r as nat == le32(b@, off as int),
{
    let b0 = b[off] as u32;
    let b1 = b[off + 1] as u32;
    let b2 = b[off + 2] as u32;
    let b3 = b[off + 3] as u32;
    b0 + b1 * 0x100 + b2 * 0x1_0000 + b3 * 0x100_0000
}

/// Appends the four little-endian bytes of `x` to `out`.
pub fn push_u32_le(out: &mut Vec<u8>, x: u32)
    ensures
        final(out)@.len() == old(out)@.len() + 4,
        forall|i: int| 0 <= i < old(out)@.len() ==> final(out)@[i] == old(out)@[i],
        le32(final(out)@, old(out)@.len() as int) == x as nat,
{
    let b0 = (x & 0xFF) as u8;
    let b1 = ((x >> 8) & 0xFF) as u8;
    let b2 = ((x >> 16) & 0xFF) as u8;
    let b3 = ((x >> 24) & 0xFF) as u8;
    proof {
        assert((x & 0xFF) < 0x100 && ((x >> 8) & 0xFF) < 0x100 && ((x >> 16) & 0xFF) < 0x100 && ((
        x >> 24) & 0xFF) < 0x100) by (bit_vector);
        assert((x & 0xFF) + 0x100 * ((x >> 8) & 0xFF) + 0x1_0000 * ((x >> 16) & 0xFF) + 0x100_0000
            * ((x >> 24) & 0xFF) == x) by (bit_vector);
    }
    out.push(b0);
    out.push(b1);
    out.push(b2);
    out.push(b3);
}

} // verus!
