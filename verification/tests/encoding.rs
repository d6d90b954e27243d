use blockchain_database::encoding::{to_le_bytes, u32_from_le_bytes};

#[test]
fn bytes_are_little_endian() {
    assert_eq!(to_le_bytes(0x0102_0304, 4), vec![4, 3, 2, 1]);
    assert_eq!(u32_from_le_bytes(&[4, 3, 2, 1]), 0x0102_0304);
}

#[test]
fn the_least_significant_bytes_are_kept() {
    assert_eq!(to_le_bytes(0x0102_0304, 2), vec![4, 3]);
    assert_eq!(to_le_bytes(u64::MAX, 8), vec![255; 8]);
    assert_eq!(to_le_bytes(5, 0), Vec::<u8>::new());
    assert_eq!(to_le_bytes(5, 9), vec![5, 0, 0, 0, 0, 0, 0, 0, 0]);
}

#[test]
fn bytes_are_read_back() {
    for value in [0, 1, 255, 256, 384, 65_535, 65_536, 0xffff_ffff] {
        assert_eq!(u32_from_le_bytes(&to_le_bytes(value, 4)), value as u32);
    }
}

#[test]
fn different_numbers_have_different_bytes() {
    assert_ne!(to_le_bytes(1, 8), to_le_bytes(256, 8));
    assert_ne!(to_le_bytes(0, 8), to_le_bytes(1 << 63, 8));
}
