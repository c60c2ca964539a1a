//! The header of a frame, byte for byte.

use vsh::frame::{decode_header, encode_header, FRAME_HEADER_SIZE, VSH_BUF_SIZE};

#[test]
fn bound_and_header_size() {
    assert_eq!(VSH_BUF_SIZE, 4096);
    assert_eq!(FRAME_HEADER_SIZE, 4);
}

#[test]
fn header_bytes_are_least_significant_first() {
    assert_eq!(encode_header(0), [0, 0, 0, 0]);
    assert_eq!(encode_header(3), [3, 0, 0, 0]);
    assert_eq!(encode_header(255), [255, 0, 0, 0]);
    assert_eq!(encode_header(256), [0, 1, 0, 0]);
    assert_eq!(encode_header(4096), [0, 16, 0, 0]);
    assert_eq!(encode_header(0x12345678), [0x78, 0x56, 0x34, 0x12]);
    assert_eq!(encode_header(u32::MAX), [255, 255, 255, 255]);
}

#[test]
fn header_is_read_as_it_was_written() {
    assert_eq!(decode_header(&[3, 0, 0, 0]), 3);
    assert_eq!(decode_header(&[0, 16, 0, 0]), 4096);
    assert_eq!(decode_header(&[0x78, 0x56, 0x34, 0x12]), 0x12345678);
    assert_eq!(decode_header(&[255, 255, 255, 255]), u32::MAX);
    for len in [0u32, 1, 255, 256, 4095, 4096, 4097, 65535, 65536, 0x00ff_ffff, 0x0100_0000] {
        assert_eq!(encode_header(len), len.to_le_bytes());
        assert_eq!(decode_header(&encode_header(len)), len);
        assert_eq!(decode_header(&len.to_le_bytes()), u32::from_le_bytes(len.to_le_bytes()));
    }
}
