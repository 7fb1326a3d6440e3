use whasm::binary::primitive::sized::{Consume, Sized};
use whasm::binary::primitive::vec::{CompactVec, UnwrappingVec};
use whasm::binary::{Byte, Error, WasmBinary, WasmBinaryParseProxy};
use whasm::source::Source;
use whasm::structure::instr::{F32, F64};

#[test]
fn array_can_deserialize_empty_array() {
    let mut iter = Source::new(vec![]);
    let result: [Byte; 0] = iter.parse().unwrap();
    assert_eq!(result, [Byte(0); 0]);
}

#[test]
fn array_can_deserialize_4_element_array() {
    let mut iter = Source::new(vec![0x01, 0x02, 0x03, 0x04]);
    let result: [Byte; 4] = iter.parse().unwrap();
    assert_eq!(result, [Byte(0x01), Byte(0x02), Byte(0x03), Byte(0x04)]);
}

#[test]
fn can_parse_byte() {
    let mut iter = Source::new(vec![0x8E]);
    let Byte(result) = iter.parse().unwrap();
    assert_eq!(result, 0x8E);
}

#[test]
fn can_return_eof_error() {
    let mut iter = Source::new(vec![]);
    let result: Result<Byte, Error> = iter.parse();
    assert_eq!(result, Err(Error::UnexpectedEndOfFile));
}

#[test]
fn can_unwrap_byte() {
    let byte = Byte(42);
    let result = byte.unwrap();
    assert_eq!(result, 42);
}

#[test]
fn can_parse_sized_element() {
    let mut iter = Source::new(vec![0x02, 0x01, 0x02]);
    let result: [Byte; 2] = iter.parse::<Sized<_>>().unwrap().unwrap();
    assert_eq!(result, [Byte(0x01), Byte(0x02)]);
}

#[test]
fn fails_to_parse_sized_element() {
    let mut iter = Source::new(vec![0x03, 0x01, 0x02, 0x03]);
    let result: Result<Sized<[Byte; 2]>, Error> = iter.parse::<Sized<_>>();
    assert_eq!(result, Err(Error::SizeMissmatch));
}

#[test]
fn can_parse_consume() {
    let mut iter = Source::new(vec![0x02, 0x01, 0x02]);
    let _: Sized<Consume> = iter.parse().unwrap();
}

#[test]
fn vec_can_deserialize_vec() {
    let mut iter = Source::new(vec![0x04, 0x01, 0x02, 0x03, 0x04]);
    let result: Vec<u8> = iter.parse().unwrap();
    assert_eq!(result, vec![0x01, 0x02, 0x03, 0x04]);
}

#[test]
fn can_deserialize_compact_vec() {
    let mut iter = Source::new(vec![0x02, 0x02, 0x2A, 0x03, 0x8E, 0x01]);
    let result: Vec<u8> = iter.parse::<CompactVec<_>>().unwrap().unwrap();
    assert_eq!(result, vec![42, 42, 142, 142, 142]);
}

#[test]
fn can_deserialize_unwrapping_vec() {
    let mut iter = Source::new(vec![0x03, 0x2A, 0x2A, 0x2A]);
    let result: Vec<u8> = iter.parse::<UnwrappingVec<Byte>>().unwrap().unwrap();
    assert_eq!(result, vec![42, 42, 42]);
}

// signed integers

#[test]
fn can_parse_spec_i8() {
    let mut iter = Source::new(vec![0x7E]);
    let result: i8 = iter.parse().unwrap();
    assert_eq!(result, -2);
}

#[test]
fn can_parse_spec_multibyte_i8() {
    let mut iter = Source::new(vec![0xFE, 0x7F]);
    let result: i8 = iter.parse().unwrap();
    assert_eq!(result, -2);
}

#[test]
fn can_parse_second_spec_multibyte_i8() {
    let mut iter = Source::new(vec![0xFE, 0xFF, 0x7F]);
    let result: i8 = iter.parse().unwrap();
    assert_eq!(result, -2);
}

#[test]
fn fails_to_parse_spec_multibyte_i8() {
    let mut iter = Source::new(vec![0x83, 0x3E]);
    let result: Result<i8, Error> = iter.parse();
    assert_eq!(result, Err(Error::OutOfRangeSignedInteger));
}

#[test]
fn fails_to_parse_second_spec_multibyte_i8() {
    let mut iter = Source::new(vec![0xFF, 0x7B]);
    let result: Result<i8, Error> = iter.parse();
    assert_eq!(result, Err(Error::OutOfRangeSignedInteger));
}

#[test]
fn can_parse_positive_i8() {
    let mut iter = Source::new(vec![0x2A]);
    let result: i8 = iter.parse().unwrap();
    assert_eq!(result, 42);
}

#[test]
fn can_parse_multibyte_positive_i8() {
    let mut iter = Source::new(vec![0xEA, 0x00]);
    let result: i8 = iter.parse().unwrap();
    assert_eq!(result, 106);
}

#[test]
fn fails_to_parse_overflowing_positive_i8() {
    let mut iter = Source::new(vec![0xD6, 0x81, 0x80, 0x00]);
    let result: Result<i8, Error> = iter.parse();
    assert_eq!(result, Err(Error::OutOfRangeSignedInteger));
}

#[test]
fn fails_to_parse_overflowing_negative_i8() {
    let mut iter = Source::new(vec![0xD6, 0xFE, 0x80, 0x7F]);
    let result: Result<i8, Error> = iter.parse();
    assert_eq!(result, Err(Error::OutOfRangeSignedInteger));
}

// unsigned integers

#[test]
fn can_parse_spec_u8() {
    let mut iter = Source::new(vec![0x03]);
    let result: u8 = iter.parse().unwrap();
    assert_eq!(result, 3);
}

#[test]
fn can_parse_multibyte_spec_u8() {
    let mut iter = Source::new(vec![0x83, 0x00]);
    let result: u8 = iter.parse().unwrap();
    assert_eq!(result, 3);
}

#[test]
fn fails_to_parse_spec_multibyte_u8() {
    let mut iter = Source::new(vec![0x83, 0x10]);
    let result: Result<u8, Error> = iter.parse();
    assert_eq!(result, Err(Error::OutOfRangeUnsignedInteger));
}

#[test]
fn can_parse_multibyte_u8() {
    let mut iter = Source::new(vec![0x8E, 0x81, 0x80, 0x00]);
    let result: u8 = iter.parse().unwrap();
    assert_eq!(result, 142);
}

#[test]
fn fails_to_parse_overflowing_u8() {
    let mut iter = Source::new(vec![0x8E, 0x82, 0x80, 0x00]);
    let result: Result<u8, Error> = iter.parse();
    assert_eq!(result, Err(Error::OutOfRangeUnsignedInteger));
}

#[test]
fn unsigned_leb_128_overflowing_u8_of_two_bytes() {
    let mut iter = Source::new(vec![0xAA, 0x02]);
    let result: Result<u8, Error> = iter.parse();
    assert_eq!(result, Err(Error::OutOfRangeUnsignedInteger));
}

#[test]
fn unsigned_leb_128_reads_no_more_than_the_number() {
    let mut iter = Source::new(vec![0xAA, 0x80, 0x00, 0x07]);
    let result: u8 = iter.parse().unwrap();
    assert_eq!(result, 42);
    assert_eq!(iter.next(), Some(0x07));
    assert_eq!(iter.next(), None);
}

#[test]
fn unsigned_leb_128_boundaries() {
    // the largest number of each width, and the smallest beyond it
    assert_eq!(Source::new(vec![0xFF, 0x01]).parse::<u8>(), Ok(u8::MAX));
    assert_eq!(Source::new(vec![0x80, 0x02]).parse::<u8>(), Err(Error::OutOfRangeUnsignedInteger));
    assert_eq!(Source::new(vec![0xFF, 0xFF, 0x03]).parse::<u16>(), Ok(u16::MAX));
    assert_eq!(Source::new(vec![0x80, 0x80, 0x04]).parse::<u16>(), Err(Error::OutOfRangeUnsignedInteger));
    assert_eq!(Source::new(vec![0xFF, 0xFF, 0xFF, 0xFF, 0x0F]).parse::<u32>(), Ok(u32::MAX));
    assert_eq!(
        Source::new(vec![0x80, 0x80, 0x80, 0x80, 0x10]).parse::<u32>(),
        Err(Error::OutOfRangeUnsignedInteger)
    );
    assert_eq!(
        Source::new(vec![0xFF, 0xFF, 0xFF, 0xFF, 0xFF, 0xFF, 0xFF, 0xFF, 0xFF, 0x01]).parse::<u64>(),
        Ok(u64::MAX)
    );
    assert_eq!(
        Source::new(vec![0x80, 0x80, 0x80, 0x80, 0x80, 0x80, 0x80, 0x80, 0x80, 0x02]).parse::<u64>(),
        Err(Error::OutOfRangeUnsignedInteger)
    );
}

#[test]
fn unsigned_leb_128_padding() {
    // any number of bytes without payload is accepted
    assert_eq!(Source::new(vec![0xFF, 0x81, 0x80, 0x80, 0x80, 0x80, 0x00]).parse::<u8>(), Ok(u8::MAX));
    assert_eq!(Source::new(vec![0xFF, 0xFF, 0x83, 0x80, 0x80, 0x00]).parse::<u16>(), Ok(u16::MAX));
    assert_eq!(
        Source::new(vec![0xFF, 0xFF, 0xFF, 0xFF, 0x8F, 0x80, 0x80, 0x80, 0x00]).parse::<u32>(),
        Ok(u32::MAX)
    );
    assert_eq!(
        Source::new(vec![0xFF, 0xFF, 0xFF, 0xFF, 0xFF, 0xFF, 0xFF, 0xFF, 0xFF, 0x81, 0x80, 0x00]).parse::<u64>(),
        Ok(u64::MAX)
    );
    // a byte with payload beyond the width is not
    assert_eq!(
        Source::new(vec![0xFF, 0x81, 0x80, 0x81, 0x00]).parse::<u8>(),
        Err(Error::OutOfRangeUnsignedInteger)
    );
    assert_eq!(
        Source::new(vec![0xFF, 0xFF, 0xFF, 0xFF, 0x8F, 0x80, 0x01]).parse::<u32>(),
        Err(Error::OutOfRangeUnsignedInteger)
    );
    assert_eq!(
        Source::new(vec![0xFF, 0xFF, 0xFF, 0xFF, 0xFF, 0xFF, 0xFF, 0xFF, 0xFF, 0x81, 0x01]).parse::<u64>(),
        Err(Error::OutOfRangeUnsignedInteger)
    );
}

#[test]
fn unsigned_leb_128_fails_first_where_it_goes_wrong() {
    // out of range at the second byte, though the bytes end without an end of the number
    assert_eq!(Source::new(vec![0x83, 0x90]).parse::<u8>(), Err(Error::OutOfRangeUnsignedInteger));
    // the bytes end before the number does
    assert_eq!(Source::new(vec![0x83]).parse::<u8>(), Err(Error::UnexpectedEndOfFile));
    assert_eq!(Source::new(vec![0x83, 0x80, 0x80]).parse::<u8>(), Err(Error::UnexpectedEndOfFile));
    assert_eq!(Source::new(vec![]).parse::<u32>(), Err(Error::UnexpectedEndOfFile));
}

#[test]
fn signed_leb_128_boundaries() {
    assert_eq!(Source::new(vec![0xFF, 0x00]).parse::<i8>(), Ok(i8::MAX));
    assert_eq!(Source::new(vec![0x80, 0x7F]).parse::<i8>(), Ok(i8::MIN));
    assert_eq!(Source::new(vec![0x80, 0x01]).parse::<i8>(), Err(Error::OutOfRangeSignedInteger));
    assert_eq!(Source::new(vec![0xFF, 0x7E]).parse::<i8>(), Err(Error::OutOfRangeSignedInteger));
    assert_eq!(Source::new(vec![0xFF, 0xFF, 0x01]).parse::<i16>(), Ok(i16::MAX));
    assert_eq!(Source::new(vec![0x80, 0x80, 0x7E]).parse::<i16>(), Ok(i16::MIN));
    assert_eq!(Source::new(vec![0x80, 0x80, 0x02]).parse::<i16>(), Err(Error::OutOfRangeSignedInteger));
    assert_eq!(Source::new(vec![0xFF, 0xFF, 0x7D]).parse::<i16>(), Err(Error::OutOfRangeSignedInteger));
    assert_eq!(Source::new(vec![0xFF, 0xFF, 0xFF, 0xFF, 0x07]).parse::<i32>(), Ok(i32::MAX));
    assert_eq!(Source::new(vec![0x80, 0x80, 0x80, 0x80, 0x78]).parse::<i32>(), Ok(i32::MIN));
    assert_eq!(
        Source::new(vec![0x80, 0x80, 0x80, 0x80, 0x08]).parse::<i32>(),
        Err(Error::OutOfRangeSignedInteger)
    );
    assert_eq!(
        Source::new(vec![0xFF, 0xFF, 0xFF, 0xFF, 0x77]).parse::<i32>(),
        Err(Error::OutOfRangeSignedInteger)
    );
    assert_eq!(
        Source::new(vec![0xFF, 0xFF, 0xFF, 0xFF, 0xFF, 0xFF, 0xFF, 0xFF, 0xFF, 0x00]).parse::<i64>(),
        Ok(i64::MAX)
    );
    assert_eq!(
        Source::new(vec![0x80, 0x80, 0x80, 0x80, 0x80, 0x80, 0x80, 0x80, 0x80, 0x7F]).parse::<i64>(),
        Ok(i64::MIN)
    );
    assert_eq!(
        Source::new(vec![0x80, 0x80, 0x80, 0x80, 0x80, 0x80, 0x80, 0x80, 0x80, 0x01]).parse::<i64>(),
        Err(Error::OutOfRangeSignedInteger)
    );
    assert_eq!(
        Source::new(vec![0xFF, 0xFF, 0xFF, 0xFF, 0xFF, 0xFF, 0xFF, 0xFF, 0xFF, 0x7E]).parse::<i64>(),
        Err(Error::OutOfRangeSignedInteger)
    );
}

#[test]
fn signed_leb_128_padding() {
    // bytes that repeat the sign are accepted, in any number
    assert_eq!(Source::new(vec![0xFF, 0x80, 0x80, 0x80, 0x00]).parse::<i8>(), Ok(i8::MAX));
    assert_eq!(Source::new(vec![0x80, 0xFF, 0xFF, 0xFF, 0x7F]).parse::<i8>(), Ok(i8::MIN));
    assert_eq!(Source::new(vec![0xD6, 0xFF, 0xFF, 0xFF, 0xFF, 0xFF, 0x7F]).parse::<i32>(), Ok(-42));
    assert_eq!(
        Source::new(vec![0x80, 0x80, 0x80, 0x80, 0x80, 0x80, 0x80, 0x80, 0x80, 0xFF, 0xFF, 0x7F]).parse::<i64>(),
        Ok(i64::MIN)
    );
    // bytes that do not are refused
    assert_eq!(
        Source::new(vec![0xFF, 0x80, 0x80, 0x7F]).parse::<i8>(),
        Err(Error::OutOfRangeSignedInteger)
    );
    assert_eq!(
        Source::new(vec![0x80, 0xFF, 0xFF, 0x00]).parse::<i8>(),
        Err(Error::OutOfRangeSignedInteger)
    );
    assert_eq!(
        Source::new(vec![0xD6, 0xFF, 0xFF, 0xFF, 0xFF, 0xFE, 0x7F]).parse::<i32>(),
        Err(Error::OutOfRangeSignedInteger)
    );
    assert_eq!(Source::new(vec![0xD6, 0xFF]).parse::<i32>(), Err(Error::UnexpectedEndOfFile));
}

#[test]
fn leb_128_encodings_of_one_number_give_one_number() {
    let short: u32 = Source::new(vec![0xE5, 0x8E, 0x26]).parse().unwrap();
    let long: u32 = Source::new(vec![0xE5, 0x8E, 0xA6, 0x80, 0x80, 0x80, 0x00]).parse().unwrap();
    assert_eq!(short, 624485);
    assert_eq!(long, 624485);
    let short: i32 = Source::new(vec![0xC0, 0xBB, 0x78]).parse().unwrap();
    let long: i32 = Source::new(vec![0xC0, 0xBB, 0xF8, 0xFF, 0xFF, 0xFF, 0x7F]).parse().unwrap();
    assert_eq!(short, -123456);
    assert_eq!(long, -123456);
    let zero: u32 = Source::new(vec![0x80, 0x80, 0x00]).parse().unwrap();
    assert_eq!(zero, 0);
}

// floats

#[test]
fn can_parse_f32_pi() {
    let mut iter = Source::new(vec![0xDB, 0x0F, 0x49, 0x40]);
    let result: F32 = iter.parse().unwrap();
    assert_eq!(f32::from_bits(result.0), std::f32::consts::PI);
}

#[test]
fn can_parse_f64_pi() {
    let mut iter = Source::new(vec![0x18, 0x2D, 0x44, 0x54, 0xFB, 0x21, 0x09, 0x40]);
    let result: F64 = iter.parse().unwrap();
    assert_eq!(f64::from_bits(result.0), std::f64::consts::PI);
}

#[test]
fn floats_keep_their_bits() {
    let singles: [f32; 10] = [
        0.0,
        -0.0,
        f32::INFINITY,
        f32::NEG_INFINITY,
        f32::from_bits(0x7FC0_0000),
        f32::from_bits(0x7F80_0001),
        1.0,
        std::f32::consts::PI,
        f32::MIN_POSITIVE,
        f32::MAX,
    ];
    for value in singles {
        let mut iter = Source::new(value.to_le_bytes().to_vec());
        let result: F32 = iter.parse().unwrap();
        assert_eq!(result.0, value.to_bits());
        assert_eq!(iter.remaining(), 0);
    }
    let doubles: [f64; 10] = [
        0.0,
        -0.0,
        f64::INFINITY,
        f64::NEG_INFINITY,
        f64::from_bits(0x7FF8_0000_0000_0000),
        f64::from_bits(0x7FF0_0000_0000_0001),
        1.0,
        std::f64::consts::PI,
        f64::MIN_POSITIVE,
        f64::MAX,
    ];
    for value in doubles {
        let mut iter = Source::new(value.to_le_bytes().to_vec());
        let result: F64 = iter.parse().unwrap();
        assert_eq!(result.0, value.to_bits());
        assert_eq!(iter.remaining(), 0);
    }
}

#[test]
fn floats_need_all_their_bytes() {
    assert_eq!(Source::new(vec![0xDB, 0x0F, 0x49]).parse::<F32>(), Err(Error::UnexpectedEndOfFile));
    assert_eq!(
        Source::new(vec![0x18, 0x2D, 0x44, 0x54, 0xFB, 0x21, 0x09]).parse::<F64>(),
        Err(Error::UnexpectedEndOfFile)
    );
}

// strings

#[test]
fn can_parse_utf8_string() {
    let mut iter = Source::new(vec![
        0x11, 0x48, 0x65, 0x6C, 0x6C, 0x6F, 0x20, 0x57, 0x6F, 0x72, 0x6C, 0x64, 0x21, 0x20, 0xF0, 0x9F, 0x92, 0x96,
    ]);
    let result: String = iter.parse().unwrap();
    assert_eq!(result, "Hello World! \u{1F496}");
}

#[test]
fn fails_to_parse_string_that_is_not_utf8() {
    assert_eq!(Source::new(vec![0x02, 0xC3, 0x28]).parse::<String>(), Err(Error::InvalidUtf8Encoding));
    assert_eq!(Source::new(vec![0x03, 0x41, 0x42]).parse::<String>(), Err(Error::UnexpectedEndOfFile));
}

// the source

#[test]
fn source_reads_in_order_and_within_its_bound() {
    let mut source = Source::new(vec![1, 2, 3, 4, 5]);
    assert_eq!(source.remaining(), 5);
    assert_eq!(source.peek(), Some(1));
    assert_eq!(source.next(), Some(1));
    let hidden = source.take(2);
    assert_eq!(hidden, 2);
    assert_eq!(source.remaining(), 2);
    assert_eq!(source.next(), Some(2));
    assert_eq!(source.next(), Some(3));
    assert_eq!(source.next(), None);
    assert_eq!(source.peek(), None);
    source.release(hidden);
    assert_eq!(source.next(), Some(4));
    assert_eq!(source.take(7), 0);
    assert_eq!(source.count(), 1);
    assert_eq!(source.next(), None);
}

// sized values

#[test]
fn sized_value_must_take_up_its_size() {
    // declared one byte short and one byte long
    assert_eq!(Source::new(vec![0x01, 0x01, 0x02]).parse::<Sized<[Byte; 2]>>().err(), Some(Error::UnexpectedEndOfFile));
    assert_eq!(Source::new(vec![0x03, 0x01, 0x02, 0x03]).parse::<Sized<[Byte; 2]>>().err(), Some(Error::SizeMissmatch));
    assert_eq!(Source::new(vec![0x03, 0x80, 0x00, 0x00]).parse::<Sized<u32>>().err(), Some(Error::SizeMissmatch));
    assert_eq!(Source::new(vec![0x01, 0x80, 0x00]).parse::<Sized<u32>>().err(), Some(Error::UnexpectedEndOfFile));
    // declared longer than what is left
    assert_eq!(Source::new(vec![0x05, 0x01, 0x02]).parse::<Sized<[Byte; 2]>>().err(), Some(Error::SizeMissmatch));
}

#[test]
fn consume_skips_what_is_left_of_a_sized_value() {
    let mut iter = Source::new(vec![0x02, 0x2A, 0x2B, 0x2C]);
    let skipped: Sized<Consume> = iter.parse().unwrap();
    assert_eq!(skipped.unwrap().count, 2);
    let Byte(result) = iter.parse().unwrap();
    assert_eq!(result, 0x2C);
}

#[test]
fn vec_of_a_huge_length_fails_where_its_elements_run_out() {
    // the length is read before any element, and nothing is stored for elements that do not come
    let mut iter = Source::new(vec![0xFF, 0xFF, 0xFF, 0xFF, 0x0F, 0x01, 0x02]);
    assert_eq!(iter.parse::<Vec<u8>>(), Err(Error::UnexpectedEndOfFile));
    let mut iter = Source::new(vec![0xFF, 0xFF, 0xFF, 0xFF, 0x0F]);
    assert_eq!(iter.parse::<UnwrappingVec<Byte>>().err(), Some(Error::UnexpectedEndOfFile));
    let mut iter = Source::new(vec![0xFF, 0xFF, 0xFF, 0xFF, 0x0F, 0x02]);
    assert_eq!(iter.parse::<CompactVec<u8>>().err(), Some(Error::UnexpectedEndOfFile));
}

#[test]
fn vec_fails_where_its_elements_run_out() {
    assert_eq!(Source::new(vec![0x03, 0x01, 0x02]).parse::<Vec<u8>>(), Err(Error::UnexpectedEndOfFile));
    assert_eq!(Source::new(vec![0x02, 0x01, 0x80, 0x02]).parse::<Vec<u8>>(), Err(Error::OutOfRangeUnsignedInteger));
    assert_eq!(Source::new(vec![0x00]).parse::<Vec<u8>>(), Ok(vec![]));
}
