use ptr_utils::{UnalignedRead, UnalignedWrite};

#[test]
fn test_unsigned_integers() {
    let mut buffer = [0u8; 64];

    buffer.write_u8_at(0, 0x12);
    buffer.write_u16_at(1, 0x1234);
    buffer.write_u32_at(4, 0x12345678);
    buffer.write_u64_at(8, 0x123456789ABCDEF0);
    buffer.write_u128_at(16, 0x123456789ABCDEF0FEDCBA0987654321);
    buffer.write_usize_at(32, 0x12345678);

    assert_eq!(buffer.read_u8_at(0), 0x12);
    assert_eq!(buffer.read_u16_at(1), 0x1234);
    assert_eq!(buffer.read_u32_at(4), 0x12345678);
    assert_eq!(buffer.read_u64_at(8), 0x123456789ABCDEF0);
    assert_eq!(buffer.read_u128_at(16), 0x123456789ABCDEF0FEDCBA0987654321);
    assert_eq!(buffer.read_usize_at(32), 0x12345678);
}

#[test]
fn test_signed_integers() {
    let mut buffer = [0u8; 64];

    buffer.write_i8_at(0, -12);
    buffer.write_i16_at(1, -1234);
    buffer.write_i32_at(4, -12345678);
    buffer.write_i64_at(8, -123456789012345678);
    buffer.write_i128_at(16, -12345678901234567890123456789012345678);
    buffer.write_isize_at(32, -12345678);

    assert_eq!(buffer.read_i8_at(0), -12);
    assert_eq!(buffer.read_i16_at(1), -1234);
    assert_eq!(buffer.read_i32_at(4), -12345678);
    assert_eq!(buffer.read_i64_at(8), -123456789012345678);
    assert_eq!(
        buffer.read_i128_at(16),
        -12345678901234567890123456789012345678
    );
    assert_eq!(buffer.read_isize_at(32), -12345678);
}

#[test]
fn test_floating_point() {
    let mut buffer = [0u8; 32];

    let f32_val = core::f32::consts::PI;
    let f64_val = core::f64::consts::E;

    // A float travels as the integer that holds its bits.
    buffer.write_u32_at(0, f32_val.to_bits());
    buffer.write_u64_at(8, f64_val.to_bits());

    assert_eq!(f32::from_bits(buffer.read_u32_at(0)), f32_val);
    assert_eq!(f64::from_bits(buffer.read_u64_at(8)), f64_val);
}

#[test]
fn test_boolean() {
    let mut buffer = [0u8; 8];

    buffer.write_bool_at(0, true);
    buffer.write_bool_at(1, false);

    assert!(buffer.read_bool_at(0));
    assert!(!buffer.read_bool_at(1));
}

#[test]
fn test_with_typed_pointers() {
    let mut buffer = vec![0u8; 32];

    // Handles of different types onto the same bytes: offsets count bytes
    // whatever the handle is.
    {
        let boxed: &mut Vec<u8> = &mut buffer;
        boxed.write_u16_at(0, 0x1234);
    }
    {
        let slice: &mut [u8] = buffer.as_mut_slice();
        slice.write_u32_at(4, 0x56789ABC);
    }

    let array: [u8; 32] = buffer.clone().try_into().unwrap();
    assert_eq!(array.read_u16_at(0), 0x1234);
    assert_eq!(buffer.read_u32_at(4), 0x56789ABC);
}

#[test]
fn test_const_pointers() {
    let buffer = [0x12u8, 0x34, 0x56, 0x78, 0x9A, 0xBC, 0xDE, 0xF0];
    let bytes: &[u8] = &buffer;

    assert_eq!(bytes.read_u8_at(0), 0x12);
    assert_eq!(bytes.read_u16_at(0), u16::from_le_bytes([0x12, 0x34]));
    assert_eq!(
        bytes.read_u32_at(0),
        u32::from_le_bytes([0x12, 0x34, 0x56, 0x78])
    );
    assert_eq!(
        bytes.read_u64_at(0),
        u64::from_le_bytes([0x12, 0x34, 0x56, 0x78, 0x9A, 0xBC, 0xDE, 0xF0])
    );
}

#[test]
fn test_unaligned_access() {
    let mut buffer = [0u8; 16];

    buffer.write_u32_at(1, 0x12345678);
    buffer.write_u64_at(5, 0x9ABCDEF012345678);

    assert_eq!(buffer.read_u32_at(1), 0x12345678);
    assert_eq!(buffer.read_u64_at(5), 0x9ABCDEF012345678);
}

#[test]
fn test_round_trip_all_types() {
    let mut buffer = [0u8; 128];
    let mut offset = 0;

    let test_u8 = 0xFFu8;
    let test_u16 = 0xFFEEu16;
    let test_u32 = 0xFFEEDDCCu32;
    let test_u64 = 0xFFEEDDCCBBAA9988u64;
    let test_u128 = 0xFFEEDDCCBBAA99887766554433221100u128;
    let test_usize = 0xDEADBEEFusize;

    buffer.write_u8_at(offset, test_u8);
    offset += 1;
    buffer.write_u16_at(offset, test_u16);
    offset += 2;
    buffer.write_u32_at(offset, test_u32);
    offset += 4;
    buffer.write_u64_at(offset, test_u64);
    offset += 8;
    buffer.write_u128_at(offset, test_u128);
    offset += 16;
    buffer.write_usize_at(offset, test_usize);

    offset = 0;
    assert_eq!(buffer.read_u8_at(offset), test_u8);
    offset += 1;
    assert_eq!(buffer.read_u16_at(offset), test_u16);
    offset += 2;
    assert_eq!(buffer.read_u32_at(offset), test_u32);
    offset += 4;
    assert_eq!(buffer.read_u64_at(offset), test_u64);
    offset += 8;
    assert_eq!(buffer.read_u128_at(offset), test_u128);
    offset += 16;
    assert_eq!(buffer.read_usize_at(offset), test_usize);
    offset += 8;

    let test_i8 = -128i8;
    let test_i16 = -32768i16;
    let test_i32 = -2147483648i32;
    let test_i64 = -9223372036854775808i64;
    let test_i128 = -170141183460469231731687303715884105728i128;
    let test_isize = -1234567890isize;

    buffer.write_i8_at(offset, test_i8);
    offset += 1;
    buffer.write_i16_at(offset, test_i16);
    offset += 2;
    buffer.write_i32_at(offset, test_i32);
    offset += 4;
    buffer.write_i64_at(offset, test_i64);
    offset += 8;
    buffer.write_i128_at(offset, test_i128);
    offset += 16;
    buffer.write_isize_at(offset, test_isize);
    offset += 8;

    offset -= 39;
    assert_eq!(buffer.read_i8_at(offset), test_i8);
    offset += 1;
    assert_eq!(buffer.read_i16_at(offset), test_i16);
    offset += 2;
    assert_eq!(buffer.read_i32_at(offset), test_i32);
    offset += 4;
    assert_eq!(buffer.read_i64_at(offset), test_i64);
    offset += 8;
    assert_eq!(buffer.read_i128_at(offset), test_i128);
    offset += 16;
    assert_eq!(buffer.read_isize_at(offset), test_isize);
}
