use hot_data::query::{
    finish_query, heat_request_code, query_buffer, HeatError, EBADF, EFAULT, ENODATA, ENOTSUP,
};
use hot_data::record::{
    HeatRecord, AVG_DELTA_READS_OFFSET, AVG_DELTA_WRITES_OFFSET, FUTURE_OFFSET, HEAT_RECORD_SIZE,
    LAST_READ_TIME_OFFSET, LAST_WRITE_TIME_OFFSET, LIVE_OFFSET, NUM_READS_OFFSET,
    NUM_WRITES_OFFSET, RESV_OFFSET, TEMP_OFFSET,
};
use hot_data::request::{ioc, IOC_NONE, IOC_READ, IOC_WRITE};

fn sample_record() -> HeatRecord {
    HeatRecord {
        live: 0xa1,
        resv: [0xb1, 0xb2, 0xb3],
        temp: 0x0403_0201,
        avg_delta_reads: 0x1817_1615_1413_1211,
        avg_delta_writes: 0x2827_2625_2423_2221,
        last_read_time: 0x3837_3635_3433_3231,
        last_write_time: 0x4847_4645_4443_4241,
        num_reads: 0x5453_5251,
        num_writes: 0x6463_6261,
        future: [
            0x7877_7675_7473_7271,
            0x8887_8685_8483_8281,
            0x9897_9695_9493_9291,
            0xa8a7_a6a5_a4a3_a2a1,
        ],
    }
}

fn assert_same(a: &HeatRecord, b: &HeatRecord) {
    assert_eq!(a.live, b.live);
    assert_eq!(a.resv, b.resv);
    assert_eq!(a.temp, b.temp);
    assert_eq!(a.avg_delta_reads, b.avg_delta_reads);
    assert_eq!(a.avg_delta_writes, b.avg_delta_writes);
    assert_eq!(a.last_read_time, b.last_read_time);
    assert_eq!(a.last_write_time, b.last_write_time);
    assert_eq!(a.num_reads, b.num_reads);
    assert_eq!(a.num_writes, b.num_writes);
    assert_eq!(a.future, b.future);
}

#[test]
fn heat_request_code_matches_bit_layout() {
    let expected: u64 = (2u64 << 30) | (80u64 << 16) | (102u64 << 8) | 17;
    assert_eq!(expected, 0x8050_6611);
    assert_eq!(heat_request_code(), 2152752657);
    assert_eq!(ioc(IOC_READ, 'f' as i32, 17, 80), 0x8050_6611);
}

#[test]
fn heat_request_code_is_stable() {
    assert_eq!(heat_request_code(), heat_request_code());
    assert_eq!(ioc(2, 102, 17, 80), ioc(2, 102, 17, 80));
}

#[test]
fn ioc_places_each_field() {
    assert_eq!(ioc(IOC_NONE, 0, 0, 0), 0);
    assert_eq!(ioc(IOC_NONE, 0, 0x34, 0), 0x34);
    assert_eq!(ioc(IOC_NONE, 0x12, 0, 0), 0x1200);
    assert_eq!(ioc(IOC_NONE, 0, 0, 0x56), 0x56_0000);
    assert_eq!(ioc(IOC_WRITE, 0, 0, 0), 0x4000_0000);
    assert_eq!(ioc(IOC_WRITE, 0x12, 0x34, 0x56), 0x4056_1234);
}

#[test]
fn ioc_largest_fields_fill_32_bits() {
    assert_eq!(ioc(3, 255, 255, 0x3fff), 0xffff_ffff);
    assert_eq!(ioc(IOC_READ | IOC_WRITE, 0, 0, 0x3fff), 0xffff_0000);
}

#[test]
fn record_layout_offsets() {
    assert_eq!(HEAT_RECORD_SIZE, 80);
    assert_eq!(LIVE_OFFSET, 0);
    assert_eq!(RESV_OFFSET, 1);
    assert_eq!(TEMP_OFFSET, 4);
    assert_eq!(AVG_DELTA_READS_OFFSET, 8);
    assert_eq!(AVG_DELTA_WRITES_OFFSET, 16);
    assert_eq!(LAST_READ_TIME_OFFSET, 24);
    assert_eq!(LAST_WRITE_TIME_OFFSET, 32);
    assert_eq!(NUM_READS_OFFSET, 40);
    assert_eq!(NUM_WRITES_OFFSET, 44);
    assert_eq!(FUTURE_OFFSET, 48);
}

#[test]
fn record_bytes_put_each_field_at_its_offset() {
    let b = sample_record().to_bytes();
    assert_eq!(b.len(), 80);
    assert_eq!(b[0], 0xa1);
    assert_eq!(&b[1..4], &[0xb1, 0xb2, 0xb3]);
    assert_eq!(&b[4..8], &[0x01, 0x02, 0x03, 0x04]);
    assert_eq!(&b[8..16], &[0x11, 0x12, 0x13, 0x14, 0x15, 0x16, 0x17, 0x18]);
    assert_eq!(&b[16..24], &[0x21, 0x22, 0x23, 0x24, 0x25, 0x26, 0x27, 0x28]);
    assert_eq!(&b[24..32], &[0x31, 0x32, 0x33, 0x34, 0x35, 0x36, 0x37, 0x38]);
    assert_eq!(&b[32..40], &[0x41, 0x42, 0x43, 0x44, 0x45, 0x46, 0x47, 0x48]);
    assert_eq!(&b[40..44], &[0x51, 0x52, 0x53, 0x54]);
    assert_eq!(&b[44..48], &[0x61, 0x62, 0x63, 0x64]);
    assert_eq!(&b[48..56], &[0x71, 0x72, 0x73, 0x74, 0x75, 0x76, 0x77, 0x78]);
    assert_eq!(&b[56..64], &[0x81, 0x82, 0x83, 0x84, 0x85, 0x86, 0x87, 0x88]);
    assert_eq!(&b[64..72], &[0x91, 0x92, 0x93, 0x94, 0x95, 0x96, 0x97, 0x98]);
    assert_eq!(&b[72..80], &[0xa1, 0xa2, 0xa3, 0xa4, 0xa5, 0xa6, 0xa7, 0xa8]);
}

#[test]
fn record_round_trips_through_bytes() {
    let r = sample_record();
    let back = HeatRecord::from_bytes(&r.to_bytes()).unwrap();
    assert_same(&r, &back);
    let init = HeatRecord::initial();
    assert_same(&init, &HeatRecord::from_bytes(&init.to_bytes()).unwrap());
}

#[test]
fn bytes_round_trip_through_record() {
    let b: Vec<u8> = (0u8..80).map(|i| i.wrapping_mul(37).wrapping_add(5)).collect();
    let r = HeatRecord::from_bytes(&b).unwrap();
    assert_eq!(r.to_bytes(), b);
}

#[test]
fn from_bytes_needs_exactly_a_record() {
    assert!(HeatRecord::from_bytes(&[]).is_none());
    assert!(HeatRecord::from_bytes(&[0u8; 79]).is_none());
    assert!(HeatRecord::from_bytes(&[0u8; 81]).is_none());
    assert!(HeatRecord::from_bytes(&[0u8; 80]).is_some());
}

#[test]
fn initial_record_is_live_and_zero() {
    let r = HeatRecord::initial();
    assert_eq!(r.live, 1);
    assert_eq!(r.resv, [0, 0, 0]);
    assert_eq!(r.temp, 0);
    assert_eq!(r.num_reads, 0);
    assert_eq!(r.num_writes, 0);
    assert_eq!(r.future, [0, 0, 0, 0]);
}

#[test]
fn query_buffer_is_the_initial_record() {
    let b = query_buffer();
    assert_eq!(b.len(), 80);
    assert_eq!(b[0], 1);
    assert!(b[1..].iter().all(|x| *x == 0));
    assert_eq!(b, HeatRecord::initial().to_bytes());
}

#[test]
fn bad_descriptor_is_classified() {
    let buf = query_buffer();
    assert_eq!(finish_query(-1, 9, &buf).unwrap_err(), HeatError::BadDescriptor);
    assert_eq!(EBADF, 9);
}

#[test]
fn unsupported_filesystem_is_classified() {
    let buf = query_buffer();
    assert_eq!(finish_query(-1, 95, &buf).unwrap_err(), HeatError::Unsupported);
    assert_eq!(ENOTSUP, 95);
}

#[test]
fn missing_heat_data_is_classified() {
    let buf = query_buffer();
    assert_eq!(finish_query(-1, 61, &buf).unwrap_err(), HeatError::NoData);
    assert_eq!(ENODATA, 61);
}

#[test]
fn bad_buffer_is_classified() {
    let buf = query_buffer();
    assert_eq!(finish_query(-1, 14, &buf).unwrap_err(), HeatError::BadBuffer);
    assert_eq!(EFAULT, 14);
}

#[test]
fn other_errors_keep_their_code() {
    let buf = query_buffer();
    let e = finish_query(-1, 5, &buf).unwrap_err();
    assert_eq!(e, HeatError::Other(5));
    assert_eq!(e.raw_os_error(), 5);
}

#[test]
fn failed_call_never_gives_a_record() {
    let buf = sample_record().to_bytes();
    assert!(finish_query(-1, 0, &buf).is_err());
    assert_eq!(finish_query(-1, 0, &buf).unwrap_err(), HeatError::Other(0));
}

#[test]
fn error_codes_round_trip() {
    for code in [9, 95, 61, 14, 0, 1, 22, -3] {
        assert_eq!(HeatError::from_raw_os_error(code).raw_os_error(), code);
    }
    assert_eq!(HeatError::BadDescriptor.raw_os_error(), 9);
    assert_eq!(HeatError::Unsupported.raw_os_error(), 95);
    assert_eq!(HeatError::NoData.raw_os_error(), 61);
    assert_eq!(HeatError::BadBuffer.raw_os_error(), 14);
}

#[test]
fn successful_call_reads_counts() {
    let mut r = HeatRecord::initial();
    r.num_reads = 1;
    r.num_writes = 1;
    r.temp = 7;
    let buf = r.to_bytes();
    let info = finish_query(0, 0, &buf).unwrap();
    assert_eq!(info.num_reads, 1);
    assert_eq!(info.num_writes, 1);
    assert_eq!(info.temp, 7);
}

#[test]
fn successful_call_ignores_stale_error_code() {
    let buf = sample_record().to_bytes();
    let info = finish_query(0, 9, &buf).unwrap();
    assert_same(&info, &sample_record());
}
