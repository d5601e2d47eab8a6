//! Identifiers and byte order.

use litebox_optee::bytes::{read_le16, read_le32, read_le64};
use litebox_optee::uuid::TeeUuid;

#[test]
fn test_tee_uuid_from_u64_array() {
    let uuid = TeeUuid::from_u64_array([0xe311f8e7_e0b34f38, 0x1bc5d5a5_020063af]);

    assert_eq!(uuid.time_low, 0x384fb3e0);
    assert_eq!(uuid.time_mid, 0xe7f8);
    assert_eq!(uuid.time_hi_and_version, 0x11e3);
    assert_eq!(
        uuid.clock_seq_and_node,
        [0xaf, 0x63, 0x00, 0x02, 0xa5, 0xd5, 0xc5, 0x1b]
    );
}

#[test]
fn uuid_from_bytes() {
    let uuid = TeeUuid::from_bytes([
        0x38, 0x4f, 0xb3, 0xe0, 0xe7, 0xf8, 0x11, 0xe3, 0xaf, 0x63, 0x00, 0x02, 0xa5, 0xd5, 0xc5,
        0x1b,
    ]);
    assert_eq!(uuid, TeeUuid::from_u64_array([0xe311f8e7_e0b34f38, 0x1bc5d5a5_020063af]));
    let other = TeeUuid::from_bytes([
        0x38, 0x4f, 0xb3, 0xe0, 0xe7, 0xf8, 0x11, 0xe3, 0xaf, 0x63, 0x00, 0x02, 0xa5, 0xd5, 0xc5,
        0x1c,
    ]);
    assert_ne!(uuid, other);
}

#[test]
fn nil_uuid() {
    let nil = TeeUuid::nil();
    assert_eq!(nil, TeeUuid::default());
    assert_eq!(nil, TeeUuid::from_bytes([0; 16]));
}

#[test]
fn little_endian_numbers() {
    let bytes = [0x01, 0x02, 0x03, 0x04, 0x05, 0x06, 0x07, 0x08, 0x09];
    assert_eq!(read_le16(&bytes, 1), 0x0302);
    assert_eq!(read_le32(&bytes, 1), 0x0504_0302);
    assert_eq!(read_le64(&bytes, 1), 0x0908_0706_0504_0302);
}
