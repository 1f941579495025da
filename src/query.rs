//! The heat query: its request code, the buffer handed to the kernel, and the
//! mapping of the call's outcome to a record or a classified error.
use vstd::prelude::*;
use crate::bytes::{u32_le_bytes, u64_le_bytes};
use crate::record::{is_initial_record, record_bytes, HeatRecord, HEAT_RECORD_SIZE};
use crate::request::{ioc, ioc_value, IOC_READ};

verus! {

/// The ioctl type tag of the heat query, the character 'f'.
pub const HEAT_IOC_TYPE: i32 = 102;

/// The ioctl number of the heat query.
pub const HEAT_IOC_NR: i32 = 17;

/// Bad file descriptor.
pub const EBADF: i32 = 9;

/// Bad address.
pub const EFAULT: i32 = 14;

/// No data available.
pub const ENODATA: i32 = 61;

/// Operation not supported.
pub const ENOTSUP: i32 = 95;

/// Why the kernel declined a heat query.
#[derive(Clone, Copy, Debug, PartialEq, Eq, Structural)]
pub enum HeatError {
    /// The descriptor is invalid or closed.
    BadDescriptor,
    /// The filesystem does not track heat.
    Unsupported,
    /// The file has no heat recorded yet.
    NoData,
    /// The output buffer's address is invalid.
    BadBuffer,
    /// Any other error code, kept as the kernel gave it.
    Other(i32),
}

/// The error that an error code stands for.
pub open spec fn classify(code: i32) -> HeatError {
    if code == EBADF {
        HeatError::BadDescriptor
    } else if code == ENOTSUP {
        HeatError::Unsupported
    } else if code == ENODATA {
        HeatError::NoData
    } else if code == EFAULT {
        HeatError::BadBuffer
    } else {
        HeatError::Other(code)
    }
}

/// The error code that an error carries.
pub open spec fn error_code(e: HeatError) -> i32 {
    match e {
        HeatError::BadDescriptor => EBADF,
        HeatError::Unsupported => ENOTSUP,
        HeatError::NoData => ENODATA,
        HeatError::BadBuffer => EFAULT,
        HeatError::Other(code) => code,
    }
}

/// The request code of the heat query: read, type 'f', number 17, the size
/// of a heat record.
pub open spec fn heat_request_value() -> int {
    ioc_value(IOC_READ as int, HEAT_IOC_TYPE as int, HEAT_IOC_NR as int, HEAT_RECORD_SIZE as int)
}

impl HeatError {
    /// Classifies a platform error code.
    pub fn from_raw_os_error(code: i32) -> (r: HeatError)
        ensures
            r == classify(code),
            error_code(r) == code,
    {
        if code == EBADF {
            HeatError::BadDescriptor
        } else if code == ENOTSUP {
            HeatError::Unsupported
        } else if code == ENODATA {
            HeatError::NoData
        } else if code == EFAULT {
            HeatError::BadBuffer
        } else {
            HeatError::Other(code)
        }
    }

    /// The platform error code of this error.
    pub fn raw_os_error(&self) -> (r: i32)
        ensures
            r == error_code(*self),
    {
        match self {
            HeatError::BadDescriptor => EBADF,
            HeatError::Unsupported => ENOTSUP,
            HeatError::NoData => ENODATA,
            HeatError::BadBuffer => EFAULT,
            HeatError::Other(code) => *code,
        }
    }
}

/// The request code to pass to ioctl for a heat query.
pub fn heat_request_code() -> (r: u64)
    ensures
        r as int == heat_request_value(),
        r == 0x8050_6611,
{
    ioc(IOC_READ, HEAT_IOC_TYPE, HEAT_IOC_NR, HEAT_RECORD_SIZE as i32)
}

/// The buffer to hand to the kernel: the initial record's bytes, with `live`
/// set to 1 and every other byte zero.
pub fn query_buffer() -> (r: Vec<u8>)
    ensures
        r@.len() == HEAT_RECORD_SIZE,
        r@[0] == 1,
        forall|i: int| 1 <= i < HEAT_RECORD_SIZE ==> r@[i] == 0,
        exists|rec: HeatRecord| is_initial_record(rec) && r@ == record_bytes(rec),
{
    let rec = HeatRecord::initial();
    let r = rec.to_bytes();
    proof {
        let z4 = Seq::new(4, |i: int| 0u8);
        let z8 = Seq::new(8, |i: int| 0u8);
        assert(0u32 as u8 == 0 && (0u32 >> 8u32) as u8 == 0 && (0u32 >> 16u32) as u8 == 0 && (0u32
            >> 24u32) as u8 == 0) by (bit_vector);
        assert(0u64 as u8 == 0 && (0u64 >> 8u64) as u8 == 0 && (0u64 >> 16u64) as u8 == 0 && (0u64
            >> 24u64) as u8 == 0 && (0u64 >> 32u64) as u8 == 0 && (0u64 >> 40u64) as u8 == 0 && (
        0u64 >> 48u64) as u8 == 0 && (0u64 >> 56u64) as u8 == 0) by (bit_vector);
        assert(u32_le_bytes(0) =~= z4);
        assert(u64_le_bytes(0) =~= z8);
        assert(rec.future[0] == 0 && rec.future[1] == 0 && rec.future[2] == 0 && rec.future[3]
            == 0);
        let expected = seq![1u8] + Seq::new(3, |i: int| 0u8) + z4 + z8 + z8 + z8 + z8 + z4 + z4
            + z8 + z8 + z8 + z8;
        assert(rec.resv@ =~= Seq::new(3, |i: int| 0u8));
        assert(r@ == expected);
        assert forall|i: int| 1 <= i < HEAT_RECORD_SIZE implies r@[i] == 0 by {
            assert(expected[i] == 0);
        }
    }
    r
}

/// The outcome of a heat query, from what the ioctl call returned, the error
/// code that the platform reported right after it, and the buffer that was
/// handed to the kernel. A zero return gives the record that the kernel
/// wrote; any other gives the classified error, and never a record.
pub fn finish_query(ret: i32, errno: i32, buf: &[u8]) -> (r: Result<HeatRecord, HeatError>)
    requires
        buf@.len() == HEAT_RECORD_SIZE,
    ensures
        r is Ok <==> ret == 0,
        r matches Ok(rec) ==> record_bytes(rec) == buf@,
        ret != 0 ==> r == Err::<HeatRecord, HeatError>(classify(errno)),
        ret != 0 && errno == EBADF ==> r == Err::<HeatRecord, HeatError>(
            HeatError::BadDescriptor,
        ),
        ret != 0 && errno == ENOTSUP ==> r == Err::<HeatRecord, HeatError>(
            HeatError::Unsupported,
        ),
        ret != 0 && errno == ENODATA ==> r == Err::<HeatRecord, HeatError>(HeatError::NoData),
        ret != 0 && errno == EFAULT ==> r == Err::<HeatRecord, HeatError>(HeatError::BadBuffer),
{
    if ret == 0 {
        match HeatRecord::from_bytes(buf) {
            Some(rec) => Ok(rec),
            None => Err(HeatError::from_raw_os_error(errno)),
        }
    } else {
        Err(HeatError::from_raw_os_error(errno))
    }
}

} // verus!
