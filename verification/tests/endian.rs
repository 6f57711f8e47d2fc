use msgpacker::endian::{
    i128_from_be_bytes, i16_from_be_bytes, i32_from_be_bytes, i64_from_be_bytes,
    u128_from_be_bytes, u16_from_be_bytes, u32_from_be_bytes, u64_from_be_bytes,
};

#[test]
fn two_bytes_spell_a_u16_most_significant_first() {
    assert_eq!(u16_from_be_bytes([0x00, 0x00]), 0);
    assert_eq!(u16_from_be_bytes([0x00, 0x01]), 1);
    assert_eq!(u16_from_be_bytes([0x01, 0x00]), 256);
    assert_eq!(u16_from_be_bytes([0x12, 0x34]), 0x1234);
    assert_eq!(u16_from_be_bytes([0xff, 0xff]), u16::MAX);
}

#[test]
fn four_bytes_spell_a_u32_most_significant_first() {
    assert_eq!(u32_from_be_bytes([0, 0, 0, 1]), 1);
    assert_eq!(u32_from_be_bytes([1, 0, 0, 0]), 1 << 24);
    assert_eq!(u32_from_be_bytes([0x12, 0x34, 0x56, 0x78]), 0x1234_5678);
    assert_eq!(u32_from_be_bytes([0xff; 4]), u32::MAX);
}

#[test]
fn eight_bytes_spell_a_u64_most_significant_first() {
    assert_eq!(u64_from_be_bytes([0, 0, 0, 0, 0, 0, 0, 1]), 1);
    assert_eq!(u64_from_be_bytes([1, 0, 0, 0, 0, 0, 0, 0]), 1 << 56);
    assert_eq!(
        u64_from_be_bytes([0x01, 0x23, 0x45, 0x67, 0x89, 0xab, 0xcd, 0xef]),
        0x0123_4567_89ab_cdef
    );
    assert_eq!(u64_from_be_bytes([0xff; 8]), u64::MAX);
}

#[test]
fn sixteen_bytes_spell_a_u128_most_significant_first() {
    let mut one = [0u8; 16];
    one[15] = 1;
    assert_eq!(u128_from_be_bytes(one), 1);
    let mut top = [0u8; 16];
    top[0] = 1;
    assert_eq!(u128_from_be_bytes(top), 1 << 120);
    assert_eq!(
        u128_from_be_bytes([
            0x00, 0x11, 0x22, 0x33, 0x44, 0x55, 0x66, 0x77, 0x88, 0x99, 0xaa, 0xbb, 0xcc, 0xdd,
            0xee, 0xff
        ]),
        0x0011_2233_4455_6677_8899_aabb_ccdd_eeff
    );
    assert_eq!(u128_from_be_bytes([0xff; 16]), u128::MAX);
}

#[test]
fn signed_readings_are_twos_complement() {
    assert_eq!(i16_from_be_bytes([0x7f, 0xff]), i16::MAX);
    assert_eq!(i16_from_be_bytes([0x80, 0x00]), i16::MIN);
    assert_eq!(i16_from_be_bytes([0xff, 0xff]), -1);
    assert_eq!(i16_from_be_bytes([0xff, 0x85]), -123);
    assert_eq!(i32_from_be_bytes([0x7f, 0xff, 0xff, 0xff]), i32::MAX);
    assert_eq!(i32_from_be_bytes([0x80, 0, 0, 0]), i32::MIN);
    assert_eq!(i32_from_be_bytes([0xff, 0xff, 0xff, 0xfe]), -2);
    assert_eq!(i64_from_be_bytes([0x7f, 0xff, 0xff, 0xff, 0xff, 0xff, 0xff, 0xff]), i64::MAX);
    assert_eq!(i64_from_be_bytes([0x80, 0, 0, 0, 0, 0, 0, 0]), i64::MIN);
    assert_eq!(i64_from_be_bytes([0xff; 8]), -1);
    let mut top = [0u8; 16];
    top[0] = 0x80;
    assert_eq!(i128_from_be_bytes(top), i128::MIN);
    assert_eq!(i128_from_be_bytes([0xff; 16]), -1);
    let mut max = [0xffu8; 16];
    max[0] = 0x7f;
    assert_eq!(i128_from_be_bytes(max), i128::MAX);
}

#[test]
fn every_pair_of_bytes_reads_as_the_standard_library_reads_it() {
    for hi in 0..=255u8 {
        for lo in 0..=255u8 {
            assert_eq!(u16_from_be_bytes([hi, lo]), u16::from_be_bytes([hi, lo]));
            assert_eq!(i16_from_be_bytes([hi, lo]), i16::from_be_bytes([hi, lo]));
        }
    }
}

#[test]
fn scattered_patterns_read_as_the_standard_library_reads_them() {
    let mut state: u64 = 0x9e37_79b9_7f4a_7c15;
    for _ in 0..5000 {
        let mut bytes = [0u8; 16];
        for b in bytes.iter_mut() {
            state = state.wrapping_mul(6364136223846793005).wrapping_add(1442695040888963407);
            *b = (state >> 56) as u8;
        }
        let four = [bytes[0], bytes[1], bytes[2], bytes[3]];
        let eight = [
            bytes[0], bytes[1], bytes[2], bytes[3], bytes[4], bytes[5], bytes[6], bytes[7],
        ];
        assert_eq!(u32_from_be_bytes(four), u32::from_be_bytes(four));
        assert_eq!(i32_from_be_bytes(four), i32::from_be_bytes(four));
        assert_eq!(u64_from_be_bytes(eight), u64::from_be_bytes(eight));
        assert_eq!(i64_from_be_bytes(eight), i64::from_be_bytes(eight));
        assert_eq!(u128_from_be_bytes(bytes), u128::from_be_bytes(bytes));
        assert_eq!(i128_from_be_bytes(bytes), i128::from_be_bytes(bytes));
    }
}
