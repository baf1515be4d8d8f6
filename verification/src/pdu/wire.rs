use vstd::prelude::*;

use super::utf16::{le16, u16_at};

verus! {

/// The little-endian bytes of a 32-bit value.
pub open spec fn le32(v: u32) -> Seq<u8> {
    seq![
        (v % 0x100) as u8,
        ((v / 0x100) % 0x100) as u8,
        ((v / 0x10000) % 0x100) as u8,
        (v / 0x1000000) as u8,
    ]
}

/// The 32-bit little-endian value stored at `b[i..i + 4]`.
pub open spec fn u32_at(b: Seq<u8>, i: int) -> u32 {
    (b[i] as int + b[i + 1] as int * 0x100 + b[i + 2] as int * 0x10000 + b[i + 3] as int
        * 0x1000000) as u32
}

/// Reads a little-endian `u16` at `i`.
pub fn read_u16_le(src: &[u8], i: usize) -> (v: u16)
    requires
        i + 2 <= src@.len(),
    ensures
        v == u16_at(src@, i as int),
{
    let lo = src[i] as u16;
    let hi = src[i + 1] as u16;
    lo + hi * 0x100
}

/// Reads a little-endian `u32` at `i`.
pub fn read_u32_le(src: &[u8], i: usize) -> (v: u32)
    requires
        i + 4 <= src@.len(),
    ensures
        v == u32_at(src@, i as int),
{
    let b0 = src[i] as u32;
    let b1 = src[i + 1] as u32;
    let b2 = src[i + 2] as u32;
    let b3 = src[i + 3] as u32;
    b0 + b1 * 0x100 + b2 * 0x10000 + b3 * 0x1000000
}

/// Appends the little-endian bytes of `v`.
pub fn push_u16_le(dst: &mut Vec<u8>, v: u16)
    ensures
        final(dst)@ == old(dst)@ + le16(v),
{
    dst.push((v % 0x100) as u8);
    dst.push((v / 0x100) as u8);
    assert(final(dst)@ =~= old(dst)@ + le16(v));
}

/// Appends the little-endian bytes of `v`.
pub fn push_u32_le(dst: &mut Vec<u8>, v: u32)
    ensures
        final(dst)@ == old(dst)@ + le32(v),
{
    dst.push((v % 0x100) as u8);
    dst.push(((v / 0x100) % 0x100) as u8);
    dst.push(((v / 0x10000) % 0x100) as u8);
    dst.push((v / 0x1000000) as u8);
    assert(final(dst)@ =~= old(dst)@ + le32(v));
}

/// A 16-bit value read back from its little-endian bytes, wherever they stand.
pub proof fn lemma_u16_at_le16(b: Seq<u8>, i: int, v: u16)
    requires
        0 <= i,
        i + 2 <= b.len(),
        b[i] == le16(v)[0],
        b[i + 1] == le16(v)[1],
    ensures
        u16_at(b, i) == v,
{
}

/// A 32-bit value read back from its little-endian bytes, wherever they stand.
pub proof fn lemma_u32_at_le32(b: Seq<u8>, i: int, v: u32)
    requires
        0 <= i,
        i + 4 <= b.len(),
        b[i] == le32(v)[0],
        b[i + 1] == le32(v)[1],
        b[i + 2] == le32(v)[2],
        b[i + 3] == le32(v)[3],
    ensures
        u32_at(b, i) == v,
{
}

/// The bytes of `b` that a prefix `f` pins down.
pub proof fn lemma_prefix_bytes(b: Seq<u8>, f: Seq<u8>)
    requires
        f.len() <= b.len(),
        b.subrange(0, f.len() as int) == f,
    ensures
        forall|i: int| 0 <= i < f.len() ==> b[i] == f[i],
{
    assert forall|i: int| 0 <= i < f.len() implies b[i] == f[i] by {
        assert(b.subrange(0, f.len() as int)[i] == b[i]);
    }
}

} // verus!
