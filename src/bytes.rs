//! Little-endian encodings of fixed-width unsigned integers.
use vstd::prelude::*;

verus! {

/// The four bytes of `v`, least significant first.
pub open spec fn u32_le_bytes(v: u32) -> Seq<u8> {
    seq![v as u8, (v >> 8u32) as u8, (v >> 16u32) as u8, (v >> 24u32) as u8]
}

/// The eight bytes of `v`, least significant first.
pub open spec fn u64_le_bytes(v: u64) -> Seq<u8> {
    seq![
        v as u8,
        (v >> 8u64) as u8,
        (v >> 16u64) as u8,
        (v >> 24u64) as u8,
        (v >> 32u64) as u8,
        (v >> 40u64) as u8,
        (v >> 48u64) as u8,
        (v >> 56u64) as u8,
    ]
}

/// Two values with the same encoding are equal.
pub proof fn lemma_u32_le_bytes_injective(v: u32, w: u32)
    requires
        u32_le_bytes(v) == u32_le_bytes(w),
    ensures
        v == w,
{
    assert(u32_le_bytes(v)[0] == u32_le_bytes(w)[0]);
    assert(u32_le_bytes(v)[1] == u32_le_bytes(w)[1]);
    assert(u32_le_bytes(v)[2] == u32_le_bytes(w)[2]);
    assert(u32_le_bytes(v)[3] == u32_le_bytes(w)[3]);
    assert(v == w) by (bit_vector)
        requires
            v as u8 == w as u8,
            (v >> 8u32) as u8 == (w >> 8u32) as u8,
            (v >> 16u32) as u8 == (w >> 16u32) as u8,
            (v >> 24u32) as u8 == (w >> 24u32) as u8,
    ;
}

/// Two values with the same encoding are equal.
pub proof fn lemma_u64_le_bytes_injective(v: u64, w: u64)
    requires
        u64_le_bytes(v) == u64_le_bytes(w),
    ensures
        v == w,
{
    assert(u64_le_bytes(v)[0] == u64_le_bytes(w)[0]);
    assert(u64_le_bytes(v)[1] == u64_le_bytes(w)[1]);
    assert(u64_le_bytes(v)[2] == u64_le_bytes(w)[2]);
    assert(u64_le_bytes(v)[3] == u64_le_bytes(w)[3]);
    assert(u64_le_bytes(v)[4] == u64_le_bytes(w)[4]);
    assert(u64_le_bytes(v)[5] == u64_le_bytes(w)[5]);
    assert(u64_le_bytes(v)[6] == u64_le_bytes(w)[6]);
    assert(u64_le_bytes(v)[7] == u64_le_bytes(w)[7]);
    assert(v == w) by (bit_vector)
        requires
            v as u8 == w as u8,
            (v >> 8u64) as u8 == (w >> 8u64) as u8,
            (v >> 16u64) as u8 == (w >> 16u64) as u8,
            (v >> 24u64) as u8 == (w >> 24u64) as u8,
            (v >> 32u64) as u8 == (w >> 32u64) as u8,
            (v >> 40u64) as u8 == (w >> 40u64) as u8,
            (v >> 48u64) as u8 == (w >> 48u64) as u8,
            (v >> 56u64) as u8 == (w >> 56u64) as u8,
    ;
}

/// Reads the 32-bit value stored little-endian at `off`.
pub fn read_u32_le(b: &[u8], off: usize) -> (r: u32)
    requires
        off + 4 <= b@.len(),
    ensures
        u32_le_bytes(r) == b@.subrange(off as int, off + 4),
{
    let len = b.len();
    assert(off + 3 < len);
    let b0 = b[off];
    let b1 = b[off + 1];
    let b2 = b[off + 2];
    let b3 = b[off + 3];
    let r: u32 = (b0 as u32) | ((b1 as u32) << 8u32) | ((b2 as u32) << 16u32) | ((b3 as u32)
        << 24u32);
    assert(r as u8 == b0 && (r >> 8u32) as u8 == b1 && (r >> 16u32) as u8 == b2 && (r >> 24u32) as u8
        == b3) by (bit_vector)
        requires
            r == (b0 as u32) | ((b1 as u32) << 8u32) | ((b2 as u32) << 16u32) | ((b3 as u32)
                << 24u32),
    ;
    assert(u32_le_bytes(r) =~= b@.subrange(off as int, off + 4));
    r
}

/// Reads the 64-bit value stored little-endian at `off`.
pub fn read_u64_le(b: &[u8], off: usize) -> (r: u64)
    requires
        off + 8 <= b@.len(),
    ensures
        u64_le_bytes(r) == b@.subrange(off as int, off + 8),
{
    let len = b.len();
    assert(off + 4 < len);
    let lo = read_u32_le(b, off);
    let hi = read_u32_le(b, off + 4);
    let r: u64 = (lo as u64) | ((hi as u64) << 32u64);
    assert(r as u8 == lo as u8 && (r >> 8u64) as u8 == (lo >> 8u32) as u8 && (r >> 16u64) as u8 == (
    lo >> 16u32) as u8 && (r >> 24u64) as u8 == (lo >> 24u32) as u8 && (r >> 32u64) as u8
        == hi as u8 && (r >> 40u64) as u8 == (hi >> 8u32) as u8 && (r >> 48u64) as u8 == (hi
        >> 16u32) as u8 && (r >> 56u64) as u8 == (hi >> 24u32) as u8) by (bit_vector)
        requires
            r == (lo as u64) | ((hi as u64) << 32u64),
    ;
    assert(u64_le_bytes(r) =~= u32_le_bytes(lo) + u32_le_bytes(hi));
    assert(b@.subrange(off as int, off + 8) =~= b@.subrange(off as int, off + 4) + b@.subrange(
        off + 4,
        off + 8,
    ));
    r
}

/// Appends the four bytes of `v`, least significant first.
pub fn push_u32_le(out: &mut Vec<u8>, v: u32)
    ensures
        final(out)@ == old(out)@ + u32_le_bytes(v),
{
    out.push(v as u8);
    out.push((v >> 8u32) as u8);
    out.push((v >> 16u32) as u8);
    out.push((v >> 24u32) as u8);
    assert(out@ =~= old(out)@ + u32_le_bytes(v));
}

/// Appends the eight bytes of `v`, least significant first.
pub fn push_u64_le(out: &mut Vec<u8>, v: u64)
    ensures
        final(out)@ == old(out)@ + u64_le_bytes(v),
{
    out.push(v as u8);
    out.push((v >> 8u64) as u8);
    out.push((v >> 16u64) as u8);
    out.push((v >> 24u64) as u8);
    out.push((v >> 32u64) as u8);
    out.push((v >> 40u64) as u8);
    out.push((v >> 48u64) as u8);
    out.push((v >> 56u64) as u8);
    assert(out@ =~= old(out)@ + u64_le_bytes(v));
}

} // verus!
