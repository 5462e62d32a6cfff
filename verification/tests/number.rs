use chia_sdk_driver::number::{
    decode_fee, decode_i32, decode_i8, decode_u16, decode_u64, decode_u8, encode_fee, encode_u64,
};

#[test]
fn unsigned_numbers_as_atoms() {
    assert_eq!(encode_u64(0), Vec::<u8>::new());
    assert_eq!(encode_u64(1), vec![1]);
    assert_eq!(encode_u64(0x7f), vec![0x7f]);
    assert_eq!(encode_u64(0x80), vec![0, 0x80]);
    assert_eq!(encode_u64(1000), vec![0x03, 0xe8]);
    assert_eq!(encode_u64(0xffff), vec![0, 0xff, 0xff]);
    assert_eq!(encode_u64(u64::MAX), vec![0, 255, 255, 255, 255, 255, 255, 255, 255]);
}

#[test]
fn atoms_as_unsigned_numbers() {
    assert_eq!(decode_u64(&[]), Some(0));
    assert_eq!(decode_u64(&[0x03, 0xe8]), Some(1000));
    assert_eq!(decode_u64(&[0, 255, 255, 255, 255, 255, 255, 255, 255]), Some(u64::MAX));
    // a sign is not looked at
    assert_eq!(decode_u64(&[0xff]), Some(255));
    // too long, and the first byte is no padding
    assert_eq!(decode_u64(&[1, 0, 0, 0, 0, 0, 0, 0, 0]), None);
    assert_eq!(decode_u16(&[0x01, 0x2c]), Some(300));
    assert_eq!(decode_u16(&[1, 0, 0]), None);
    assert_eq!(decode_u8(&[51]), Some(51));
    assert_eq!(decode_u8(&[0, 0x80]), Some(0x80));
    assert_eq!(decode_u8(&[1, 1]), None);
}

#[test]
fn atoms_as_signed_numbers() {
    assert_eq!(decode_i32(&[0xe8]), Some(-24));
    assert_eq!(decode_i32(&[0xff, 0xe8]), Some(-24));
    assert_eq!(decode_i32(&[0xf3]), Some(-13));
    assert_eq!(decode_i32(&[]), Some(0));
    assert_eq!(decode_i32(&[0x7f, 0xff, 0xff, 0xff]), Some(i32::MAX));
    assert_eq!(decode_i32(&[0x80, 0, 0, 0]), Some(i32::MIN));
    assert_eq!(decode_i32(&[1, 0, 0, 0, 0]), None);
    assert_eq!(decode_i8(&[0x8f]), Some(-113));
    assert_eq!(decode_i8(&[0xf6]), Some(-10));
    assert_eq!(decode_i8(&[0x7f]), Some(127));
    assert_eq!(decode_i8(&[1, 0]), None);
}

#[test]
fn every_u64_size_reads_back() {
    for shift in 0..64 {
        for v in [1u64 << shift, (1u64 << shift) - 1, u64::MAX >> shift] {
            assert_eq!(decode_u64(&encode_u64(v)), Some(v));
            assert_eq!(decode_fee(&encode_fee(v)), Some(v));
            assert_eq!(encode_fee(v), encode_u64(v));
        }
    }
}

#[test]
fn fees_as_memos() {
    assert_eq!(encode_fee(0), Vec::<u8>::new());
    assert_eq!(encode_fee(1000), vec![0x03, 0xe8]);
    assert_eq!(encode_fee(128), vec![0, 0x80]);
    assert_eq!(decode_fee(&[]), Some(0));
    assert_eq!(decode_fee(&[0, 0x80]), Some(128));
    assert_eq!(decode_fee(&[0, 0, 5]), Some(5));
    assert_eq!(decode_fee(&[0x80]), None);
    assert_eq!(decode_fee(&[1, 0, 0, 0, 0, 0, 0, 0, 0]), None);
}
