//! The Linux ioctl request numbering: four fields packed into one word.
use vstd::prelude::*;

verus! {

/// Direction: no data moves.
pub const IOC_NONE: i32 = 0;

/// Direction: user space writes, the kernel reads.
pub const IOC_WRITE: i32 = 1;

/// Direction: the kernel writes, user space reads.
pub const IOC_READ: i32 = 2;

pub const IOC_NRBITS: u32 = 8;

pub const IOC_TYPEBITS: u32 = 8;

pub const IOC_SIZEBITS: u32 = 14;

pub const IOC_DIRBITS: u32 = 2;

pub const IOC_NRSHIFT: u32 = 0;

pub const IOC_TYPESHIFT: u32 = IOC_NRSHIFT + IOC_NRBITS;

pub const IOC_SIZESHIFT: u32 = IOC_TYPESHIFT + IOC_TYPEBITS;

pub const IOC_DIRSHIFT: u32 = IOC_SIZESHIFT + IOC_SIZEBITS;

/// Whether each field fits its bit range: direction in 2 bits, type and
/// number in 8 bits each, size in 14 bits.
pub open spec fn ioc_fields_fit(dir: int, ty: int, nr: int, size: int) -> bool {
    &&& 0 <= dir < 4
    &&& 0 <= ty < 256
    &&& 0 <= nr < 256
    &&& 0 <= size < 0x4000
}

/// The request code: number in bits 0-7, type in bits 8-15, size in bits
/// 16-29, direction in bits 30-31.
pub open spec fn ioc_value(dir: int, ty: int, nr: int, size: int) -> int {
    dir * 0x4000_0000 + size * 0x1_0000 + ty * 0x100 + nr
}

/// Packs direction, type, number and size into a request code. The fields are
/// not checked against their ranges at run time, as the kernel headers do not
/// check them either; a caller must keep each within its range.
pub fn ioc(dir: i32, ty: i32, nr: i32, size: i32) -> (r: u64)
    requires
        ioc_fields_fit(dir as int, ty as int, nr as int, size as int),
    ensures
        r as int == ioc_value(dir as int, ty as int, nr as int, size as int),
        r < 0x1_0000_0000,
        (r >> 30u64) == dir as u64,
        (r >> 16u64) & 0x3fff == size as u64,
        (r >> 8u64) & 0xff == ty as u64,
        r & 0xff == nr as u64,
{
    let d: u32 = dir as u32;
    let t: u32 = ty as u32;
    let n: u32 = nr as u32;
    let s: u32 = size as u32;
    let packed: u32 = (d << IOC_DIRSHIFT) | (t << IOC_TYPESHIFT) | (n << IOC_NRSHIFT) | (s
        << IOC_SIZESHIFT);
    proof {
        lemma_pack_fields(d, t, n, s);
    }
    let r: u64 = packed as u64;
    proof {
        lemma_widen_fields(packed, r);
    }
    r
}

proof fn lemma_pack_fields(d: u32, t: u32, n: u32, s: u32)
    requires
        d < 4,
        t < 256,
        n < 256,
        s < 0x4000,
    ensures
        ((d << 30u32) | (t << 8u32) | (n << 0u32) | (s << 16u32)) as int == d * 0x4000_0000 + s
            * 0x1_0000 + t * 0x100 + n,
        ((d << 30u32) | (t << 8u32) | (n << 0u32) | (s << 16u32)) >> 30u32 == d,
        (((d << 30u32) | (t << 8u32) | (n << 0u32) | (s << 16u32)) >> 16u32) & 0x3fff == s,
        (((d << 30u32) | (t << 8u32) | (n << 0u32) | (s << 16u32)) >> 8u32) & 0xff == t,
        ((d << 30u32) | (t << 8u32) | (n << 0u32) | (s << 16u32)) & 0xff == n,
{
    assert(((d << 30u32) | (t << 8u32) | (n << 0u32) | (s << 16u32)) == d * 0x4000_0000 + s
        * 0x1_0000 + t * 0x100 + n) by (bit_vector)
        requires
            d < 4,
            t < 256,
            n < 256,
            s < 0x4000,
    ;
    assert(((d << 30u32) | (t << 8u32) | (n << 0u32) | (s << 16u32)) >> 30u32 == d
        && (((d << 30u32) | (t << 8u32) | (n << 0u32) | (s << 16u32)) >> 16u32) & 0x3fff == s
        && (((d << 30u32) | (t << 8u32) | (n << 0u32) | (s << 16u32)) >> 8u32) & 0xff == t
        && ((d << 30u32) | (t << 8u32) | (n << 0u32) | (s << 16u32)) & 0xff == n) by (bit_vector)
        requires
            d < 4,
            t < 256,
            n < 256,
            s < 0x4000,
    ;
}

proof fn lemma_widen_fields(p: u32, r: u64)
    requires
        r == p as u64,
    ensures
        r as int == p as int,
        (r >> 30u64) == (p >> 30u32) as u64,
        (r >> 16u64) & 0x3fff == ((p >> 16u32) & 0x3fff) as u64,
        (r >> 8u64) & 0xff == ((p >> 8u32) & 0xff) as u64,
        r & 0xff == (p & 0xff) as u64,
{
    assert((r >> 30u64) == (p >> 30u32) as u64 && (r >> 16u64) & 0x3fff == ((p >> 16u32)
        & 0x3fff) as u64 && (r >> 8u64) & 0xff == ((p >> 8u32) & 0xff) as u64 && r & 0xff == (p
        & 0xff) as u64) by (bit_vector)
        requires
            r == p as u64,
    ;
}

} // verus!
