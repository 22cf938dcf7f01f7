use idsm::pcap::pcap_write::{
    pcap_header, pcap_record, pcap_writer, serialize_2_bytes, serialize_4_bytes,
    PCAP_MAX_FRAME_LEN,
};
use idsm::time_linux::timestamp::timestamp;

const GLOBAL_HEADER: [u8; 24] = [
    0xA1, 0xB2, 0xC3, 0xD4, 0x00, 0x02, 0x00, 0x04, 0x00, 0x00, 0x00, 0x00, 0x00, 0x00, 0x00, 0x00,
    0x00, 0x00, 0xFF, 0xFF, 0x00, 0x00, 0x00, 0x01,
];

#[test]
fn serialize_4_bytes_is_big_endian() {
    let mut buf = [0xEEu8; 8];
    let mut off = 2usize;
    serialize_4_bytes(0x01020304, &mut buf, &mut off);
    assert_eq!(off, 6);
    assert_eq!(buf, [0xEE, 0xEE, 0x01, 0x02, 0x03, 0x04, 0xEE, 0xEE]);
}

#[test]
fn serialize_2_bytes_is_big_endian() {
    let mut buf = [0xEEu8; 4];
    let mut off = 1usize;
    serialize_2_bytes(0xABCD, &mut buf, &mut off);
    assert_eq!(off, 3);
    assert_eq!(buf, [0xEE, 0xAB, 0xCD, 0xEE]);
}

#[test]
fn global_header_fields() {
    let h = pcap_header::new();
    assert_eq!(h.magic_number, 0xA1B2C3D4);
    assert_eq!(h.version_major, 2);
    assert_eq!(h.version_minor, 4);
    assert_eq!(h.thiszone, 0);
    assert_eq!(h.sigfigs, 0);
    assert_eq!(h.snaplen, 65535);
    assert_eq!(h.network, 1);
}

#[test]
fn global_header_bytes() {
    let mut h = pcap_header::new();
    let mut buf = [0u8; 24];
    let mut off = 0usize;
    h.serialize(&mut buf, &mut off);
    assert_eq!(off, 24);
    assert_eq!(buf, GLOBAL_HEADER);
    assert_eq!(h, pcap_header::new());
    assert_eq!(pcap_header::PCAP_HEADER_LEN, 24);
}

#[test]
fn global_header_negative_zone_is_twos_complement() {
    let mut h = pcap_header::new();
    h.thiszone = -3600;
    let mut buf = [0u8; 26];
    let mut off = 1usize;
    h.serialize(&mut buf, &mut off);
    assert_eq!(off, 25);
    assert_eq!(&buf[9..13], &[0xFF, 0xFF, 0xF1, 0xF0]);
    assert_eq!(buf[0], 0);
    assert_eq!(buf[25], 0);
}

#[test]
fn record_header_bytes() {
    let mut r = pcap_record::new();
    assert_eq!(r, pcap_record { ts_sec: 0, ts_usec: 0, incl_len: 0, orig_len: 0 });
    r.ts_sec = 0x65000001;
    r.ts_usec = 999_999;
    r.incl_len = 60;
    r.orig_len = 1514;
    let mut buf = [0u8; 16];
    let mut off = 0usize;
    r.serialize(&mut buf, &mut off);
    assert_eq!(off, 16);
    assert_eq!(
        buf,
        [
            0x65, 0x00, 0x00, 0x01, 0x00, 0x0F, 0x42, 0x3F, 0x00, 0x00, 0x00, 0x3C, 0x00, 0x00,
            0x05, 0xEA
        ]
    );
    assert_eq!(pcap_record::PCAP_RECORD_LEN, 16);
}

#[test]
fn create_starts_the_capture_with_the_global_header() {
    let mut w = pcap_writer::new();
    assert!(w.take().is_empty());
    assert_eq!(w.create(), 0);
    assert_eq!(w.take(), GLOBAL_HEADER.to_vec());
    assert!(w.take().is_empty());
}

#[test]
fn write_at_appends_record_header_and_frame() {
    let mut w = pcap_writer::new();
    let frame = [0x11u8, 0x22, 0x33, 0x44, 0x55];
    let t = timestamp { sec: 7, usec: 9 };
    assert_eq!(w.write_at(&frame, 3, &t), 0);
    assert_eq!(
        w.take(),
        vec![0, 0, 0, 7, 0, 0, 0, 9, 0, 0, 0, 3, 0, 0, 0, 3, 0x11, 0x22, 0x33]
    );
}

#[test]
fn write_at_keeps_the_order_of_the_records() {
    let mut w = pcap_writer::new();
    assert_eq!(w.create(), 0);
    assert_eq!(w.write_at(&[0xAA], 1, &timestamp { sec: 1, usec: 2 }), 0);
    assert_eq!(w.write_at(&[0xBB, 0xCC], 2, &timestamp { sec: 3, usec: 4 }), 0);
    let mut expected = GLOBAL_HEADER.to_vec();
    expected.extend_from_slice(&[0, 0, 0, 1, 0, 0, 0, 2, 0, 0, 0, 1, 0, 0, 0, 1, 0xAA]);
    expected.extend_from_slice(&[0, 0, 0, 3, 0, 0, 0, 4, 0, 0, 0, 2, 0, 0, 0, 2, 0xBB, 0xCC]);
    assert_eq!(w.take(), expected);
}

#[test]
fn write_at_takes_a_frame_of_2048_bytes_and_no_more() {
    let mut w = pcap_writer::new();
    let big = vec![0x5Au8; 4096];
    let t = timestamp { sec: 1, usec: 1 };
    assert_eq!(PCAP_MAX_FRAME_LEN, 2048);
    assert_eq!(w.write_at(&big, 2049, &t), -1);
    assert!(w.take().is_empty());
    assert_eq!(w.write_at(&big, 2048, &t), 0);
    let out = w.take();
    assert_eq!(out.len(), 16 + 2048);
    assert_eq!(&out[8..16], &[0, 0, 0x08, 0, 0, 0, 0x08, 0]);
}

#[test]
fn write_at_refuses_a_length_beyond_the_buffer() {
    let mut w = pcap_writer::new();
    let t = timestamp { sec: 1, usec: 1 };
    assert_eq!(w.write_at(&[1, 2, 3], 4, &t), -1);
    assert!(w.take().is_empty());
    assert_eq!(w.write_at(&[], 0, &t), 0);
    assert_eq!(w.take().len(), 16);
}

#[test]
fn write_stamps_the_record_with_the_wall_clock() {
    let mut w = pcap_writer::new();
    let frame = [9u8, 8, 7, 6];
    assert_eq!(w.write(&frame, 4), 0);
    let out = w.take();
    assert_eq!(out.len(), 20);
    let sec = u32::from_be_bytes([out[0], out[1], out[2], out[3]]);
    let usec = u32::from_be_bytes([out[4], out[5], out[6], out[7]]);
    assert!(sec > 1_600_000_000);
    assert!(usec < 1_000_000);
    assert_eq!(&out[8..], &[0, 0, 0, 4, 0, 0, 0, 4, 9, 8, 7, 6]);
    assert_eq!(w.write(&frame, 5), -1);
    assert_eq!(w.write(&vec![0u8; 3000], 2049), -1);
    assert!(w.take().is_empty());
}
