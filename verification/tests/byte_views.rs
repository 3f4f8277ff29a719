use unscrupulous::as_slice_of_bytes;
use unscrupulous::nonzero::NonZeroI32;
use unscrupulous::nonzero::NonZeroI8;
use unscrupulous::nonzero::NonZeroU128;
use unscrupulous::nonzero::NonZeroU8;
use unscrupulous::Unscrupulous;

#[test]
fn size_of_bool_and_char() {
    assert_eq!(as_slice_of_bytes(&true).len(), 1);
    assert_eq!(as_slice_of_bytes(&false).len(), 1);
    assert_eq!(as_slice_of_bytes(&'x').len(), 4);
}

#[test]
fn size_of_unsigned_integers() {
    assert_eq!(as_slice_of_bytes(&0u8).len(), 1);
    assert_eq!(as_slice_of_bytes(&0u16).len(), 2);
    assert_eq!(as_slice_of_bytes(&0u32).len(), 4);
    assert_eq!(as_slice_of_bytes(&0u64).len(), 8);
    assert_eq!(as_slice_of_bytes(&0u128).len(), 16);
}

#[test]
fn size_of_signed_integers() {
    assert_eq!(as_slice_of_bytes(&-1i8).len(), 1);
    assert_eq!(as_slice_of_bytes(&-1i16).len(), 2);
    assert_eq!(as_slice_of_bytes(&-1i32).len(), 4);
    assert_eq!(as_slice_of_bytes(&-1i64).len(), 8);
    assert_eq!(as_slice_of_bytes(&-1i128).len(), 16);
}

#[test]
fn size_of_arrays() {
    let triple: [u16; 3] = [1, 2, 3];
    assert_eq!(as_slice_of_bytes(&triple).len(), 6);
    let empty: [u32; 0] = [];
    assert_eq!(as_slice_of_bytes(&empty).len(), 0);
    let nested: [[u8; 2]; 2] = [[1, 2], [3, 4]];
    assert_eq!(as_slice_of_bytes(&nested).len(), 4);
}

#[test]
fn unsigned_little_endian_layout() {
    assert_eq!(as_slice_of_bytes(&0x11223344u32), vec![0x44, 0x33, 0x22, 0x11]);
    assert_eq!(as_slice_of_bytes(&0xABCDu16), vec![0xCD, 0xAB]);
    assert_eq!(as_slice_of_bytes(&0xFFu8), vec![0xFF]);
    assert_eq!(as_slice_of_bytes(&u128::MAX), vec![0xFF; 16]);
    assert_eq!(
        as_slice_of_bytes(&0x0102030405060708u64),
        vec![0x08, 0x07, 0x06, 0x05, 0x04, 0x03, 0x02, 0x01]
    );
}

#[test]
fn signed_twos_complement_layout() {
    assert_eq!(as_slice_of_bytes(&-1i8), vec![0xFF]);
    assert_eq!(as_slice_of_bytes(&-2i16), vec![0xFE, 0xFF]);
    assert_eq!(as_slice_of_bytes(&0x11223344i32), vec![0x44, 0x33, 0x22, 0x11]);
    assert_eq!(as_slice_of_bytes(&i16::MIN), vec![0x00, 0x80]);
    let mut min_bytes = vec![0x00; 16];
    min_bytes[15] = 0x80;
    assert_eq!(as_slice_of_bytes(&i128::MIN), min_bytes);
    assert_eq!(as_slice_of_bytes(&i128::MAX)[15], 0x7F);
}

#[test]
fn char_scalar_layout() {
    assert_eq!(as_slice_of_bytes(&'A'), vec![0x41, 0x00, 0x00, 0x00]);
    // U+20AC EURO SIGN
    assert_eq!(as_slice_of_bytes(&'\u{20AC}'), vec![0xAC, 0x20, 0x00, 0x00]);
    assert_eq!(as_slice_of_bytes(&char::MAX), vec![0xFF, 0xFF, 0x10, 0x00]);
}

#[test]
fn bool_layout() {
    assert_eq!(as_slice_of_bytes(&true), vec![1]);
    assert_eq!(as_slice_of_bytes(&false), vec![0]);
}

#[test]
fn round_trip_i32() {
    let original: i32 = 0x11223344;
    let bytes = as_slice_of_bytes(&original);
    let array: [u8; 4] = bytes.as_slice().try_into().unwrap();
    assert_eq!(i32::from_le_bytes(array), original);
}

#[test]
fn round_trip_negative_i64() {
    let original: i64 = -123_456_789_012_345;
    let bytes = as_slice_of_bytes(&original);
    let array: [u8; 8] = bytes.as_slice().try_into().unwrap();
    assert_eq!(i64::from_le_bytes(array), original);
}

#[test]
fn round_trip_u128_extremes() {
    for original in [0u128, 1, u128::MAX, 0x0102030405060708090A0B0C0D0E0F10] {
        let bytes = as_slice_of_bytes(&original);
        let array: [u8; 16] = bytes.as_slice().try_into().unwrap();
        assert_eq!(u128::from_le_bytes(array), original);
    }
}

#[test]
fn array_is_concatenation_of_elements() {
    let triple: [u16; 3] = [1, 2, 3];
    assert_eq!(as_slice_of_bytes(&triple), vec![0x01, 0x00, 0x02, 0x00, 0x03, 0x00]);
    let mut concatenated = Vec::new();
    for element in &triple {
        concatenated.extend(as_slice_of_bytes(element));
    }
    assert_eq!(as_slice_of_bytes(&triple), concatenated);
}

#[test]
fn nested_array_composition() {
    let nested: [[u8; 2]; 2] = [[1, 2], [3, 4]];
    assert_eq!(as_slice_of_bytes(&nested), vec![1, 2, 3, 4]);
    let of_signed: [i8; 2] = [-1, 2];
    assert_eq!(as_slice_of_bytes(&of_signed), vec![0xFF, 0x02]);
}

#[test]
fn nonzero_same_view_as_plain_integer() {
    let constrained = NonZeroU8::new(7).unwrap();
    assert_eq!(as_slice_of_bytes(&constrained), vec![0x07]);
    assert_eq!(as_slice_of_bytes(&constrained), as_slice_of_bytes(&7u8));
    let negative = NonZeroI8::new(-5).unwrap();
    assert_eq!(as_slice_of_bytes(&negative), as_slice_of_bytes(&-5i8));
    let wide = NonZeroU128::new(u128::MAX).unwrap();
    assert_eq!(as_slice_of_bytes(&wide), as_slice_of_bytes(&u128::MAX));
}

#[test]
fn nonzero_refuses_zero() {
    assert!(NonZeroU8::new(0).is_none());
    assert!(NonZeroI32::new(0).is_none());
    assert_eq!(NonZeroU8::new(9).unwrap().get(), 9);
    assert_eq!(NonZeroI32::new(-9).unwrap().get(), -9);
}

#[test]
fn viewing_does_not_mutate() {
    let value: u32 = 0xDEADBEEF;
    let bytes = as_slice_of_bytes(&value);
    assert_eq!(value, 0xDEADBEEF);
    assert_eq!(bytes, vec![0xEF, 0xBE, 0xAD, 0xDE]);
    let array: [u16; 2] = [10, 20];
    let _ = as_slice_of_bytes(&array);
    assert_eq!(array, [10, 20]);
}

#[test]
fn viewing_twice_gives_equal_bytes() {
    let value: i64 = -42;
    assert_eq!(as_slice_of_bytes(&value), as_slice_of_bytes(&value));
    let trait_side = value.to_bytes();
    assert_eq!(trait_side, as_slice_of_bytes(&value));
}
