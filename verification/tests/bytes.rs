use rivulets::bytes::FromBytes;

#[test]
fn test_i8_conversion() {
    let value: i8 = 123;
    let bytes = value.to_le_bytes();
    assert_eq!(<i8 as FromBytes<1>>::from_le_bytes(bytes), value);
}

#[test]
fn test_i16_conversion() {
    let value: i16 = 12345;
    let bytes = value.to_le_bytes();
    assert_eq!(<i16 as FromBytes<2>>::from_le_bytes(bytes), value);
}

#[test]
fn test_i32_conversion() {
    let value: i32 = -1234567;
    let bytes = value.to_le_bytes();
    assert_eq!(<i32 as FromBytes<4>>::from_le_bytes(bytes), value);
}

#[test]
fn test_f32_conversion() {
    let value: f32 = 123.456;
    let bytes = value.to_le_bytes();
    assert_eq!(f32::from_le_bytes(bytes), value);
}

#[test]
fn test_f64_conversion() {
    let value: f64 = -987.654321;
    let bytes = value.to_le_bytes();
    assert_eq!(f64::from_le_bytes(bytes), value);
}

#[test]
fn negative_values_decode_in_twos_complement() {
    assert_eq!(<i8 as FromBytes<1>>::from_le_bytes([0x80]), -128);
    assert_eq!(<i8 as FromBytes<1>>::from_le_bytes([0xff]), -1);
    assert_eq!(<i16 as FromBytes<2>>::from_le_bytes([0x00, 0x80]), i16::MIN);
    assert_eq!(<i32 as FromBytes<4>>::from_le_bytes([0xff, 0xff, 0xff, 0x7f]), i32::MAX);
    assert_eq!(<i64 as FromBytes<8>>::from_le_bytes([0, 0, 0, 0, 0, 0, 0, 0x80]), i64::MIN);
    assert_eq!(<i64 as FromBytes<8>>::from_le_bytes((-5i64).to_le_bytes()), -5);
}

#[test]
fn unsigned_values_decode_least_significant_byte_first() {
    assert_eq!(<u8 as FromBytes<1>>::from_le_bytes([0xab]), 0xab);
    assert_eq!(<u16 as FromBytes<2>>::from_le_bytes([0x34, 0x12]), 0x1234);
    assert_eq!(<u32 as FromBytes<4>>::from_le_bytes([0x78, 0x56, 0x34, 0x12]), 0x1234_5678);
    assert_eq!(<u64 as FromBytes<8>>::from_le_bytes([8, 7, 6, 5, 4, 3, 2, 1]), 0x0102_0304_0506_0708);
    assert_eq!(<u64 as FromBytes<8>>::from_le_bytes(u64::MAX.to_le_bytes()), u64::MAX);
}
