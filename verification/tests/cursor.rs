use idsm::protocols::packet::{packet, packet_error, PKT_BUF_LEN};

fn frame(bytes: &[u8]) -> packet {
    let mut p = packet::new();
    p.buf[..bytes.len()].copy_from_slice(bytes);
    p.pkt_len = bytes.len();
    p
}

#[test]
fn new_packet_is_empty() {
    let p = packet::new();
    assert_eq!(p.pkt_len, 0);
    assert_eq!(p.off, 0);
    assert_eq!(p.buf_len(), 2048);
    assert_eq!(PKT_BUF_LEN, 2048);
    assert!(p.buf.iter().all(|b| *b == 0));
}

#[test]
fn read_u8_advances_by_one() {
    let mut p = frame(&[0xAB, 0xCD]);
    let mut v: u8 = 0;
    assert_eq!(p.deserialize_byte(&mut v), Ok(()));
    assert_eq!(v, 0xAB);
    assert_eq!(p.off, 1);
    assert_eq!(p.deserialize_byte(&mut v), Ok(()));
    assert_eq!(v, 0xCD);
    assert_eq!(p.off, 2);
}

#[test]
fn read_u8_past_the_end_is_out_of_bounds() {
    let mut p = frame(&[0xAB]);
    p.off = 1;
    let mut v: u8 = 0x77;
    assert_eq!(p.deserialize_byte(&mut v), Err(packet_error::OutOfBounds));
    assert_eq!(v, 0x77);
    assert_eq!(p.off, 1);
}

#[test]
fn read_u16_is_big_endian() {
    let mut p = frame(&[0x12, 0x34]);
    let mut v: u16 = 0;
    assert_eq!(p.deserialize_2_bytes(&mut v), Ok(()));
    assert_eq!(v, 0x1234);
    assert_eq!(p.off, 2);
    assert_eq!(p.deserialize_2_bytes(&mut v), Err(packet_error::OutOfBounds));
    assert_eq!(v, 0x1234);
    assert_eq!(p.off, 2);
}

#[test]
fn read_u16_needs_two_captured_bytes() {
    let mut p = frame(&[0x12]);
    let mut v: u16 = 9;
    assert_eq!(p.deserialize_2_bytes(&mut v), Err(packet_error::OutOfBounds));
    assert_eq!(v, 9);
    assert_eq!(p.off, 0);
}

#[test]
fn read_u32_is_big_endian() {
    let mut p = frame(&[0xDE, 0xAD, 0xBE, 0xEF, 0x01]);
    let mut v: u32 = 0;
    assert_eq!(p.deserialize_4_bytes(&mut v), Ok(()));
    assert_eq!(v, 0xDEADBEEF);
    assert_eq!(p.off, 4);
    assert_eq!(p.deserialize_4_bytes(&mut v), Err(packet_error::OutOfBounds));
    assert_eq!(p.off, 4);
}

#[test]
fn read_mac_takes_six_bytes() {
    let mut p = frame(&[1, 2, 3, 4, 5, 6, 7]);
    let mut mac = [0u8; 6];
    assert_eq!(p.deserialize_mac(&mut mac), Ok(()));
    assert_eq!(mac, [1, 2, 3, 4, 5, 6]);
    assert_eq!(p.off, 6);
    assert_eq!(p.deserialize_mac(&mut mac), Err(packet_error::OutOfBounds));
    assert_eq!(mac, [1, 2, 3, 4, 5, 6]);
}

#[test]
fn read_ip6addr_takes_sixteen_bytes() {
    let bytes: Vec<u8> = (1..=17).collect();
    let mut p = frame(&bytes);
    let mut a = [0u8; 16];
    assert_eq!(p.deserialize_ip6addr(&mut a), Ok(()));
    assert_eq!(a, [1, 2, 3, 4, 5, 6, 7, 8, 9, 10, 11, 12, 13, 14, 15, 16]);
    assert_eq!(p.off, 16);
    assert_eq!(p.deserialize_ip6addr(&mut a), Err(packet_error::OutOfBounds));
    assert_eq!(p.off, 16);
}

#[test]
fn reads_stop_at_the_captured_length_not_at_the_capacity() {
    let mut p = frame(&[1, 2, 3, 4]);
    p.buf[4] = 0xFF;
    p.off = 3;
    let mut v: u16 = 0;
    assert_eq!(p.deserialize_2_bytes(&mut v), Err(packet_error::OutOfBounds));
}

#[test]
fn remaining_len_counts_from_the_cursor() {
    let mut p = frame(&[0; 20]);
    assert!(p.remaining_len_in_bounds(20));
    assert!(!p.remaining_len_in_bounds(21));
    p.off = 6;
    assert!(p.remaining_len_in_bounds(14));
    assert!(!p.remaining_len_in_bounds(15));
    p.off = 20;
    assert!(p.remaining_len_in_bounds(0));
    assert!(!p.remaining_len_in_bounds(1));
    p.off = 21;
    assert!(p.remaining_len_in_bounds(0));
    assert!(!p.remaining_len_in_bounds(1));
}

#[test]
fn write_u8_u16_u32_are_big_endian() {
    let mut p = packet::new();
    let mut a: u8 = 0x7F;
    let mut b: u16 = 0xABCD;
    let mut c: u32 = 0x01020304;
    assert_eq!(p.serialize_byte(&mut a), Ok(()));
    assert_eq!(p.serialize_2_bytes(&mut b), Ok(()));
    assert_eq!(p.serialize_4_bytes(&mut c), Ok(()));
    assert_eq!(p.off, 7);
    assert_eq!(&p.buf[..8], &[0x7F, 0xAB, 0xCD, 0x01, 0x02, 0x03, 0x04, 0x00]);
    assert_eq!(p.pkt_len, 0);
    assert_eq!((a, b, c), (0x7F, 0xABCD, 0x01020304));
}

#[test]
fn write_mac_and_ip6addr_copy_the_bytes() {
    let mut p = packet::new();
    let mut mac = [0xAA, 0xBB, 0xCC, 0xDD, 0xEE, 0xFF];
    let mut ip6 = [0u8; 16];
    for i in 0..16 {
        ip6[i] = 0x20 + i as u8;
    }
    assert_eq!(p.serialize_mac(&mut mac), Ok(()));
    assert_eq!(p.serialize_ip6addr(&mut ip6), Ok(()));
    assert_eq!(p.off, 22);
    assert_eq!(&p.buf[..6], &mac);
    assert_eq!(&p.buf[6..22], &ip6);
    assert_eq!(p.buf[22], 0);
}

#[test]
fn writes_past_the_capacity_are_out_of_bounds() {
    let mut p = packet::new();
    p.off = 2047;
    let mut b: u16 = 0xABCD;
    assert_eq!(p.serialize_2_bytes(&mut b), Err(packet_error::OutOfBounds));
    assert_eq!(p.off, 2047);
    assert_eq!(p.buf[2047], 0);
    let mut a: u8 = 0x11;
    assert_eq!(p.serialize_byte(&mut a), Ok(()));
    assert_eq!(p.buf[2047], 0x11);
    assert_eq!(p.off, 2048);
    assert_eq!(p.serialize_byte(&mut a), Err(packet_error::OutOfBounds));
    let mut c: u32 = 1;
    p.off = 2045;
    assert_eq!(p.serialize_4_bytes(&mut c), Err(packet_error::OutOfBounds));
    let mut mac = [1u8; 6];
    p.off = 2043;
    assert_eq!(p.serialize_mac(&mut mac), Err(packet_error::OutOfBounds));
    let mut ip6 = [1u8; 16];
    p.off = 2033;
    assert_eq!(p.serialize_ip6addr(&mut ip6), Err(packet_error::OutOfBounds));
    p.off = usize::MAX;
    assert_eq!(p.serialize_byte(&mut a), Err(packet_error::OutOfBounds));
}

#[test]
fn written_value_reads_back_with_the_same_cursor() {
    let mut p = packet::new();
    p.off = 100;
    let mut c: u32 = 0xCAFEBABE;
    assert_eq!(p.serialize_4_bytes(&mut c), Ok(()));
    p.pkt_len = p.off;
    p.off = 100;
    let mut back: u32 = 0;
    assert_eq!(p.deserialize_4_bytes(&mut back), Ok(()));
    assert_eq!(back, 0xCAFEBABE);
}
