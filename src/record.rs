//! The heat record that the kernel fills, and its fixed byte layout.
//!
//! The layout is explicit rather than left to the compiler: each field has a
//! fixed offset, and integers are stored little-endian, as the kernel of a
//! little-endian machine writes them.
use vstd::prelude::*;
use crate::bytes::{
    lemma_u32_le_bytes_injective,
    lemma_u64_le_bytes_injective,
    push_u32_le,
    push_u64_le,
    read_u32_le,
    read_u64_le,
    u32_le_bytes,
    u64_le_bytes,
};

verus! {

broadcast use vstd::array::group_array_axioms;

/// Size in bytes of an encoded record.
pub const HEAT_RECORD_SIZE: usize = 80;

pub const LIVE_OFFSET: usize = 0;

pub const RESV_OFFSET: usize = 1;

pub const TEMP_OFFSET: usize = 4;

pub const AVG_DELTA_READS_OFFSET: usize = 8;

pub const AVG_DELTA_WRITES_OFFSET: usize = 16;

pub const LAST_READ_TIME_OFFSET: usize = 24;

pub const LAST_WRITE_TIME_OFFSET: usize = 32;

pub const NUM_READS_OFFSET: usize = 40;

pub const NUM_WRITES_OFFSET: usize = 44;

pub const FUTURE_OFFSET: usize = 48;

/// Per-file heat statistics, field for field as the kernel lays them out.
#[derive(Clone, Copy, Debug)]
pub struct HeatRecord {
    /// Non-zero while the inode is tracked.
    pub live: u8,
    /// Padding; zero on input.
    pub resv: [u8; 3],
    /// The kernel's hotness score.
    pub temp: u32,
    pub avg_delta_reads: u64,
    pub avg_delta_writes: u64,
    pub last_read_time: u64,
    pub last_write_time: u64,
    pub num_reads: u32,
    pub num_writes: u32,
    /// Reserved for later fields; zero.
    pub future: [u64; 4],
}

/// The bytes of `r` as exchanged with the kernel: each field at its offset,
/// little-endian, with no padding beyond `resv`.
pub open spec fn record_bytes(r: HeatRecord) -> Seq<u8> {
    seq![r.live] + r.resv@ + u32_le_bytes(r.temp) + u64_le_bytes(r.avg_delta_reads)
        + u64_le_bytes(r.avg_delta_writes) + u64_le_bytes(r.last_read_time) + u64_le_bytes(
        r.last_write_time,
    ) + u32_le_bytes(r.num_reads) + u32_le_bytes(r.num_writes) + u64_le_bytes(r.future[0])
        + u64_le_bytes(r.future[1]) + u64_le_bytes(r.future[2]) + u64_le_bytes(r.future[3])
}

/// The record handed to the kernel before a query: `live` set to 1 so that
/// the kernel's overwrite can be seen, everything else zero.
pub open spec fn is_initial_record(r: HeatRecord) -> bool {
    &&& r.live == 1
    &&& r.resv@ == seq![0u8, 0u8, 0u8]
    &&& r.temp == 0
    &&& r.avg_delta_reads == 0
    &&& r.avg_delta_writes == 0
    &&& r.last_read_time == 0
    &&& r.last_write_time == 0
    &&& r.num_reads == 0
    &&& r.num_writes == 0
    &&& r.future@ == seq![0u64, 0u64, 0u64, 0u64]
}

/// The encoding of a record is 80 bytes long, and each field stands at its
/// offset: live at 0, resv at 1, temp at 4, the two average deltas at 8 and
/// 16, the two last-access times at 24 and 32, the read and write counts at
/// 40 and 44, and the four reserved words from 48.
pub proof fn lemma_record_layout(r: HeatRecord)
    ensures
        record_bytes(r).len() == HEAT_RECORD_SIZE,
        record_bytes(r)[LIVE_OFFSET as int] == r.live,
        record_bytes(r).subrange(RESV_OFFSET as int, RESV_OFFSET + 3) == r.resv@,
        record_bytes(r).subrange(TEMP_OFFSET as int, TEMP_OFFSET + 4) == u32_le_bytes(r.temp),
        record_bytes(r).subrange(AVG_DELTA_READS_OFFSET as int, AVG_DELTA_READS_OFFSET + 8)
            == u64_le_bytes(r.avg_delta_reads),
        record_bytes(r).subrange(AVG_DELTA_WRITES_OFFSET as int, AVG_DELTA_WRITES_OFFSET + 8)
            == u64_le_bytes(r.avg_delta_writes),
        record_bytes(r).subrange(LAST_READ_TIME_OFFSET as int, LAST_READ_TIME_OFFSET + 8)
            == u64_le_bytes(r.last_read_time),
        record_bytes(r).subrange(LAST_WRITE_TIME_OFFSET as int, LAST_WRITE_TIME_OFFSET + 8)
            == u64_le_bytes(r.last_write_time),
        record_bytes(r).subrange(NUM_READS_OFFSET as int, NUM_READS_OFFSET + 4) == u32_le_bytes(
            r.num_reads,
        ),
        record_bytes(r).subrange(NUM_WRITES_OFFSET as int, NUM_WRITES_OFFSET + 4) == u32_le_bytes(
            r.num_writes,
        ),
        forall|k: int|
            0 <= k < 4 ==> #[trigger] record_bytes(r).subrange(
                FUTURE_OFFSET + 8 * k,
                FUTURE_OFFSET + 8 * k + 8,
            ) == u64_le_bytes(r.future[k]),
{
    let b = record_bytes(r);
    assert(b.subrange(1, 4) =~= r.resv@);
    assert(b.subrange(4, 8) =~= u32_le_bytes(r.temp));
    assert(b.subrange(8, 16) =~= u64_le_bytes(r.avg_delta_reads));
    assert(b.subrange(16, 24) =~= u64_le_bytes(r.avg_delta_writes));
    assert(b.subrange(24, 32) =~= u64_le_bytes(r.last_read_time));
    assert(b.subrange(32, 40) =~= u64_le_bytes(r.last_write_time));
    assert(b.subrange(40, 44) =~= u32_le_bytes(r.num_reads));
    assert(b.subrange(44, 48) =~= u32_le_bytes(r.num_writes));
    assert(b.subrange(48, 56) =~= u64_le_bytes(r.future[0]));
    assert(b.subrange(56, 64) =~= u64_le_bytes(r.future[1]));
    assert(b.subrange(64, 72) =~= u64_le_bytes(r.future[2]));
    assert(b.subrange(72, 80) =~= u64_le_bytes(r.future[3]));
    assert forall|k: int| 0 <= k < 4 implies #[trigger] b.subrange(
        FUTURE_OFFSET + 8 * k,
        FUTURE_OFFSET + 8 * k + 8,
    ) == u64_le_bytes(r.future[k]) by {
        if k == 0 {
        } else if k == 1 {
        } else if k == 2 {
        } else {
        }
    }
}

/// Records with the same encoding are the same record: decoding what was
/// encoded gives the record back.
pub proof fn lemma_record_bytes_injective(a: HeatRecord, b: HeatRecord)
    requires
        record_bytes(a) == record_bytes(b),
    ensures
        a == b,
{
    lemma_record_layout(a);
    lemma_record_layout(b);
    lemma_u32_le_bytes_injective(a.temp, b.temp);
    lemma_u64_le_bytes_injective(a.avg_delta_reads, b.avg_delta_reads);
    lemma_u64_le_bytes_injective(a.avg_delta_writes, b.avg_delta_writes);
    lemma_u64_le_bytes_injective(a.last_read_time, b.last_read_time);
    lemma_u64_le_bytes_injective(a.last_write_time, b.last_write_time);
    lemma_u32_le_bytes_injective(a.num_reads, b.num_reads);
    lemma_u32_le_bytes_injective(a.num_writes, b.num_writes);
    assert(record_bytes(a).subrange(48, 56) == u64_le_bytes(a.future[0]));
    assert(record_bytes(a).subrange(56, 64) == u64_le_bytes(a.future[1]));
    assert(record_bytes(a).subrange(64, 72) == u64_le_bytes(a.future[2]));
    assert(record_bytes(a).subrange(72, 80) == u64_le_bytes(a.future[3]));
    assert(record_bytes(b).subrange(48, 56) == u64_le_bytes(b.future[0]));
    assert(record_bytes(b).subrange(56, 64) == u64_le_bytes(b.future[1]));
    assert(record_bytes(b).subrange(64, 72) == u64_le_bytes(b.future[2]));
    assert(record_bytes(b).subrange(72, 80) == u64_le_bytes(b.future[3]));
    lemma_u64_le_bytes_injective(a.future[0], b.future[0]);
    lemma_u64_le_bytes_injective(a.future[1], b.future[1]);
    lemma_u64_le_bytes_injective(a.future[2], b.future[2]);
    lemma_u64_le_bytes_injective(a.future[3], b.future[3]);
    assert(a.resv =~= b.resv);
    assert(a.future =~= b.future);
}

impl HeatRecord {
    /// The record to hand to the kernel before a query.
    pub fn initial() -> (r: HeatRecord)
        ensures
            is_initial_record(r),
    {
        let r = HeatRecord {
            live: 1,
            resv: [0, 0, 0],
            temp: 0,
            avg_delta_reads: 0,
            avg_delta_writes: 0,
            last_read_time: 0,
            last_write_time: 0,
            num_reads: 0,
            num_writes: 0,
            future: [0, 0, 0, 0],
        };
        assert(r.resv@ =~= seq![0u8, 0u8, 0u8]);
        assert(r.future@ =~= seq![0u64, 0u64, 0u64, 0u64]);
        r
    }

    /// The record's bytes in the kernel's layout.
    pub fn to_bytes(&self) -> (r: Vec<u8>)
        ensures
            r@ == record_bytes(*self),
    {
        let mut out: Vec<u8> = Vec::with_capacity(HEAT_RECORD_SIZE);
        out.push(self.live);
        out.push(self.resv[0]);
        out.push(self.resv[1]);
        out.push(self.resv[2]);
        assert(out@ =~= seq![self.live] + self.resv@);
        push_u32_le(&mut out, self.temp);
        push_u64_le(&mut out, self.avg_delta_reads);
        push_u64_le(&mut out, self.avg_delta_writes);
        push_u64_le(&mut out, self.last_read_time);
        push_u64_le(&mut out, self.last_write_time);
        push_u32_le(&mut out, self.num_reads);
        push_u32_le(&mut out, self.num_writes);
        push_u64_le(&mut out, self.future[0]);
        push_u64_le(&mut out, self.future[1]);
        push_u64_le(&mut out, self.future[2]);
        push_u64_le(&mut out, self.future[3]);
        out
    }

    /// Reads a record from bytes in the kernel's layout: `None` unless there
    /// are exactly 80 of them.
    pub fn from_bytes(b: &[u8]) -> (r: Option<HeatRecord>)
        ensures
            r is Some <==> b@.len() == HEAT_RECORD_SIZE,
            r matches Some(rec) ==> record_bytes(rec) == b@,
    {
        if b.len() != HEAT_RECORD_SIZE {
            return None;
        }
        let rec = HeatRecord {
            live: b[LIVE_OFFSET],
            resv: [b[RESV_OFFSET], b[RESV_OFFSET + 1], b[RESV_OFFSET + 2]],
            temp: read_u32_le(b, TEMP_OFFSET),
            avg_delta_reads: read_u64_le(b, AVG_DELTA_READS_OFFSET),
            avg_delta_writes: read_u64_le(b, AVG_DELTA_WRITES_OFFSET),
            last_read_time: read_u64_le(b, LAST_READ_TIME_OFFSET),
            last_write_time: read_u64_le(b, LAST_WRITE_TIME_OFFSET),
            num_reads: read_u32_le(b, NUM_READS_OFFSET),
            num_writes: read_u32_le(b, NUM_WRITES_OFFSET),
            future: [
                read_u64_le(b, FUTURE_OFFSET),
                read_u64_le(b, FUTURE_OFFSET + 8),
                read_u64_le(b, FUTURE_OFFSET + 16),
                read_u64_le(b, FUTURE_OFFSET + 24),
            ],
        };
        proof {
            lemma_record_layout(rec);
            let e = record_bytes(rec);
            assert(rec.resv@ =~= b@.subrange(1, 4));
            assert(e.subrange(48, 56) == u64_le_bytes(rec.future[0]));
            assert(e.subrange(56, 64) == u64_le_bytes(rec.future[1]));
            assert(e.subrange(64, 72) == u64_le_bytes(rec.future[2]));
            assert(e.subrange(72, 80) == u64_le_bytes(rec.future[3]));
            assert forall|i: int| 0 <= i < 80 implies e[i] == b@[i] by {
                if i < 1 {
                } else if i < 4 {
                    assert(e[i] == e.subrange(1, 4)[i - 1]);
                } else if i < 8 {
                    assert(e[i] == e.subrange(4, 8)[i - 4]);
                } else if i < 16 {
                    assert(e[i] == e.subrange(8, 16)[i - 8]);
                } else if i < 24 {
                    assert(e[i] == e.subrange(16, 24)[i - 16]);
                } else if i < 32 {
                    assert(e[i] == e.subrange(24, 32)[i - 24]);
                } else if i < 40 {
                    assert(e[i] == e.subrange(32, 40)[i - 32]);
                } else if i < 44 {
                    assert(e[i] == e.subrange(40, 44)[i - 40]);
                } else if i < 48 {
                    assert(e[i] == e.subrange(44, 48)[i - 44]);
                } else if i < 56 {
                    assert(e[i] == e.subrange(48, 56)[i - 48]);
                } else if i < 64 {
                    assert(e[i] == e.subrange(56, 64)[i - 56]);
                } else if i < 72 {
                    assert(e[i] == e.subrange(64, 72)[i - 64]);
                } else {
                    assert(e[i] == e.subrange(72, 80)[i - 72]);
                }
            }
            assert(e =~= b@);
        }
        Some(rec)
    }
}

} // verus!
