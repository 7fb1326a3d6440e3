use whasm::binary::primitive::sized::Sized;
use whasm::binary::WasmBinaryParseProxy;
use whasm::grammar::primitive::derive::{discriminant, forwarded, matching, no_variant, sized};
use whasm::grammar::primitive::signed::deserialize_signed_leb_128;
use whasm::grammar::primitive::unsigned::deserialize_unsigned_leb_128;
use whasm::grammar::{deserialize, Byte, Error, List, VecVec};
use whasm::source::Source;
use whasm::structure::instr::{F32, F64};

// bytes

#[test]
fn can_deserialize_byte() {
    let mut iter = Source::new(vec![0x8E]);
    let Byte(result) = deserialize(&mut iter).unwrap();
    assert_eq!(result, 0x8E);
}

#[test]
fn byte_uses_exactly_1_byte() {
    assert_eq!(std::mem::size_of::<Byte>(), 1);
}

#[test]
fn byte_transmutes_to_u8() {
    let byte = Byte(42);
    let transmuted: u8 = byte.unwrap();
    assert_eq!(transmuted, 42);
}

#[test]
fn byte_vector_transmutes_to_u8_vector() {
    let byte = vec![Byte(42), Byte(0x33), Byte(0x55)];
    let transmuted: Vec<u8> = byte.into_iter().map(|byte| byte.unwrap()).collect();
    assert_eq!(transmuted, vec![42, 0x33, 0x55]);
}

#[test]
fn byte_fails_at_the_end_of_the_stream() {
    let mut iter = Source::new(vec![0x00]);
    let Byte(_) = deserialize(&mut iter).unwrap();
    let result: Result<Byte, Error> = deserialize(&mut iter);
    assert_eq!(result, Err(Error::UnexpectedEndOfStream));
}

// records and tagged unions, decoded field by field

#[derive(Debug, PartialEq)]
struct Struct {
    first: u32,
    second: String,
}

fn deserialize_struct(iter: &mut Source) -> Result<Struct, Error> {
    Ok(Struct { first: deserialize(iter)?, second: deserialize(iter)? })
}

#[test]
fn can_deserialize_struct() {
    let mut iter = Source::new(vec![0x2A, 0x02, 0x34, 0x32, 0x03, 0x01, 0x02, 0x03]);
    let result = deserialize_struct(&mut iter).unwrap();
    assert_eq!(result, Struct { first: 42, second: "42".into() });
}

#[derive(Debug, PartialEq)]
struct MatchingStruct {
    data: u32,
}

fn deserialize_matching_struct(iter: &mut Source) -> Result<MatchingStruct, Error> {
    let data: u32 = deserialize(iter)?;
    matching(data == 42, "42")?;
    Ok(MatchingStruct { data })
}

#[test]
fn can_deserialize_matching_struct() {
    let mut iter = Source::new(vec![0x2A]);
    let result = deserialize_matching_struct(&mut iter).unwrap();
    assert_eq!(result, MatchingStruct { data: 42 });
}

#[test]
#[should_panic]
fn fails_to_deserialize_matching_struct_that_does_not_match() {
    let mut iter = Source::new(vec![0x2B]);
    let _ = deserialize_matching_struct(&mut iter).unwrap();
}

#[test]
fn matching_struct_that_does_not_match_is_an_unsatisfied_match() {
    let mut iter = Source::new(vec![0x2B]);
    assert_eq!(deserialize_matching_struct(&mut iter), Err(Error::UnsatisfiedMatch { expected: "42" }));
}

#[derive(Debug, PartialEq)]
struct SizedStruct {
    data: u32,
}

fn deserialize_sized_struct(iter: &mut Source) -> Result<SizedStruct, Error> {
    Ok(SizedStruct { data: sized(iter)? })
}

#[test]
fn can_deserialize_sized_struct() {
    let mut iter = Source::new(vec![0x04, 0xAA, 0x80, 0x80, 0x00]);
    let result = deserialize_sized_struct(&mut iter).unwrap();
    assert_eq!(result, SizedStruct { data: 42 });
}

#[test]
#[should_panic]
fn fails_to_deserialize_sized_struct_with_smaller_size() {
    let mut iter = Source::new(vec![0x05, 0xAA, 0x80, 0x80, 0x00, 0x00]);
    let _ = deserialize_sized_struct(&mut iter).unwrap();
}

#[test]
#[should_panic]
fn fails_to_deserialize_sized_struct_with_bigger_size() {
    let mut iter = Source::new(vec![0x04, 0xAA, 0x80, 0x80, 0x80, 0x00]);
    let _ = deserialize_sized_struct(&mut iter).unwrap();
}

#[test]
fn sized_struct_of_another_size_fails_as_it_should() {
    let mut iter = Source::new(vec![0x05, 0xAA, 0x80, 0x80, 0x00, 0x00]);
    assert_eq!(deserialize_sized_struct(&mut iter), Err(Error::RemainingBytesInStream { ident: "Sized" }));
    let mut iter = Source::new(vec![0x04, 0xAA, 0x80, 0x80, 0x80, 0x00]);
    assert_eq!(deserialize_sized_struct(&mut iter), Err(Error::UnexpectedEndOfStream));
}

#[derive(Debug, PartialEq)]
struct TupleStruct(u32, String);

fn deserialize_tuple_struct(iter: &mut Source) -> Result<TupleStruct, Error> {
    Ok(TupleStruct(deserialize(iter)?, deserialize(iter)?))
}

#[test]
fn can_deserialize_tuple_struct() {
    let mut iter = Source::new(vec![0x2A, 0x02, 0x34, 0x32, 0x03, 0x01, 0x02, 0x03]);
    let result = deserialize_tuple_struct(&mut iter).unwrap();
    assert_eq!(result, TupleStruct(42, "42".into()));
}

#[derive(Debug, PartialEq)]
enum Enum {
    V1(u8),
    V2(u8),
}

fn deserialize_enum(iter: &mut Source) -> Result<Enum, Error> {
    match discriminant(iter)? {
        0x11..=0x21 => Ok(Enum::V1(deserialize(iter)?)),
        0x22 => Ok(Enum::V2(deserialize(iter)?)),
        other => Err(no_variant("Enum", other)),
    }
}

#[test]
fn can_deserialize_enum() {
    let mut iter = Source::new(vec![0x11, 0x03]);
    let result = deserialize_enum(&mut iter).unwrap();
    assert_eq!(result, Enum::V1(0x03));
}

#[test]
#[should_panic]
fn fails_to_deserialize_enum_with_invalid_discriminant() {
    let mut iter = Source::new(vec![0x55, 0x03]);
    let _ = deserialize_enum(&mut iter).unwrap();
}

#[test]
fn enum_with_invalid_discriminant_names_the_discriminant() {
    let mut iter = Source::new(vec![0x55, 0x03]);
    assert_eq!(
        deserialize_enum(&mut iter),
        Err(Error::InvalidEnumDiscriminant { ident: "Enum", discriminant: 0x55 })
    );
}

#[derive(Debug, PartialEq)]
enum SizedEnum {
    V1(u32),
    V2(u32),
}

fn deserialize_sized_enum(iter: &mut Source) -> Result<SizedEnum, Error> {
    match discriminant(iter)? {
        0x11 => Ok(SizedEnum::V1(sized(iter)?)),
        0x22 => Ok(SizedEnum::V2(sized(iter)?)),
        other => Err(no_variant("SizedEnum", other)),
    }
}

#[test]
fn can_deserialize_sized_enum() {
    let mut iter = Source::new(vec![0x11, 0x04, 0xAA, 0x80, 0x80, 0x00]);
    let result = deserialize_sized_enum(&mut iter).unwrap();
    assert_eq!(result, SizedEnum::V1(42));
    let mut iter = Source::new(vec![0x22, 0x01, 0x2A]);
    assert_eq!(deserialize_sized_enum(&mut iter), Ok(SizedEnum::V2(42)));
}

#[test]
#[should_panic]
fn fails_to_deserialize_sized_enum_with_smaller_size() {
    let mut iter = Source::new(vec![0x11, 0x05, 0xAA, 0x80, 0x80, 0x00, 0x00]);
    let _ = deserialize_sized_enum(&mut iter).unwrap();
}

#[test]
#[should_panic]
fn fails_to_deserialize_sized_enum_with_bigger_size() {
    let mut iter = Source::new(vec![0x11, 0x04, 0xAA, 0x80, 0x80, 0x80, 0x00]);
    let _ = deserialize_sized_enum(&mut iter).unwrap();
}

#[derive(Debug, PartialEq)]
enum ForwardingEnum {
    V1(u8),
    V2(u8),
    V3(Enum),
}

fn deserialize_forwarding_enum(iter: &mut Source) -> Result<ForwardingEnum, Error> {
    match forwarded(iter)? {
        0x33 => {
            discriminant(iter)?;
            Ok(ForwardingEnum::V1(deserialize(iter)?))
        }
        0x44 => {
            discriminant(iter)?;
            Ok(ForwardingEnum::V2(deserialize(iter)?))
        }
        _ => Ok(ForwardingEnum::V3(deserialize_enum(iter)?)),
    }
}

#[test]
fn can_deserialize_forwarding_enum() {
    let mut iter = Source::new(vec![0x22, 0x03]);
    let result = deserialize_forwarding_enum(&mut iter).unwrap();
    assert_eq!(result, ForwardingEnum::V3(Enum::V2(0x03)));
    let mut iter = Source::new(vec![0x44, 0x07]);
    assert_eq!(deserialize_forwarding_enum(&mut iter), Ok(ForwardingEnum::V2(0x07)));
}

#[test]
#[should_panic]
fn fails_to_deserialize_forwarding_enum_with_invalid_discriminant() {
    let mut iter = Source::new(vec![0x55, 0x03]);
    let _ = deserialize_forwarding_enum(&mut iter).unwrap();
}

#[test]
fn sized_reads_what_the_proxy_reads() {
    let by_function: u32 = sized(&mut Source::new(vec![0x02, 0xAA, 0x00])).unwrap();
    let by_proxy: Sized<u32> = deserialize(&mut Source::new(vec![0x02, 0xAA, 0x00])).unwrap();
    assert_eq!(by_function, 42);
    assert_eq!(by_proxy.unwrap(), 42);
}

// floats

#[test]
fn can_deserialize_f32_pi() {
    let mut iter = Source::new(vec![0xDB, 0x0F, 0x49, 0x40]);
    let result: F32 = deserialize(&mut iter).unwrap();
    assert_eq!(f32::from_bits(result.0), std::f32::consts::PI);
}

#[test]
fn can_deserialize_f64_pi() {
    let mut iter = Source::new(vec![0x18, 0x2D, 0x44, 0x54, 0xFB, 0x21, 0x09, 0x40]);
    let result: F64 = deserialize(&mut iter).unwrap();
    assert_eq!(f64::from_bits(result.0), std::f64::consts::PI);
}

// lists

#[test]
fn can_deserialize_list() {
    let mut iter = Source::new(vec![0x2A, 0xAA, 0x00, 0xAA, 0x80, 0x00]);
    let result: List<u8> = deserialize(&mut iter).unwrap();
    assert_eq!(result, List(vec![42, 42, 42]));
}

#[test]
fn list_takes_up_all_the_bytes() {
    let mut iter = Source::new(vec![0x01, 0x02, 0x03, 0x04]);
    let result: List<Byte> = deserialize(&mut iter).unwrap();
    assert_eq!(result, List(vec![Byte(0x01), Byte(0x02), Byte(0x03), Byte(0x04)]));
    assert_eq!(iter.next(), None);
    let empty: List<Byte> = deserialize(&mut iter).unwrap();
    assert_eq!(empty, List(vec![]));
}

#[test]
fn list_fails_where_its_last_element_is_cut_short() {
    let mut iter = Source::new(vec![0x00, 0x00, 0x00, 0x00, 0x05, 0x06]);
    let result: Result<List<F32>, Error> = deserialize(&mut iter);
    assert_eq!(result, Err(Error::UnexpectedEndOfStream));
}

#[test]
fn list_of_elements_in_no_bytes_fails() {
    let mut iter = Source::new(vec![0x01]);
    let result: Result<List<[Byte; 0]>, Error> = deserialize(&mut iter);
    assert_eq!(result, Err(Error::UnexpectedEndOfStream));
}

// signed integers

#[test]
fn can_deserialize_spec_i8() {
    let mut iter = Source::new(vec![0x7E]);
    let result: i8 = deserialize(&mut iter).unwrap();
    assert_eq!(result, -2);
}

#[test]
fn can_deserialize_spec_multibyte_i8() {
    let mut iter = Source::new(vec![0xFE, 0x7F]);
    let result: i8 = deserialize(&mut iter).unwrap();
    assert_eq!(result, -2);
}

#[test]
fn can_deserialize_second_spec_multibyte_i8() {
    let mut iter = Source::new(vec![0xFE, 0xFF, 0x7F]);
    let result: i8 = deserialize(&mut iter).unwrap();
    assert_eq!(result, -2);
}

#[test]
#[should_panic]
fn fails_to_deserialize_spec_multibyte_i8() {
    let mut iter = Source::new(vec![0x83, 0x3E]);
    let _: i8 = deserialize(&mut iter).unwrap();
}

#[test]
#[should_panic]
fn fails_to_deserialize_second_spec_multibyte_i8() {
    let mut iter = Source::new(vec![0xFF, 0x7B]);
    let _: i8 = deserialize(&mut iter).unwrap();
}

#[test]
fn can_deserialize_positive_i8() {
    let mut iter = Source::new(vec![0x2A]);
    let result: i8 = deserialize(&mut iter).unwrap();
    assert_eq!(result, 42);
}

#[test]
fn can_deserialize_multibyte_positive_i8() {
    let mut iter = Source::new(vec![0xEA, 0x00]);
    let result: i8 = deserialize(&mut iter).unwrap();
    assert_eq!(result, 106);
}

#[test]
#[should_panic]
fn fails_to_deserialize_overflowing_positive_i8() {
    let mut iter = Source::new(vec![0xD6, 0x81, 0x80, 0x00]);
    let _: i8 = deserialize(&mut iter).unwrap();
}

#[test]
#[should_panic]
fn fails_to_deserialize_overflowing_negative_i8() {
    let mut iter = Source::new(vec![0xD6, 0xFE, 0x80, 0x7F]);
    let _: i8 = deserialize(&mut iter).unwrap();
}

#[test]
fn signed_leb_128_of_each_width() {
    assert_eq!(deserialize_signed_leb_128(&mut Source::new(vec![0x80, 0x7F]), 8), Ok(-128));
    assert_eq!(deserialize_signed_leb_128(&mut Source::new(vec![0x80, 0x7F]), 16), Ok(-128));
    assert_eq!(
        deserialize_signed_leb_128(&mut Source::new(vec![0x80, 0x01]), 8),
        Err(Error::OutOfRangeSignedInteger)
    );
    assert_eq!(deserialize_signed_leb_128(&mut Source::new(vec![0x80, 0x01]), 16), Ok(128));
    assert_eq!(deserialize_signed_leb_128(&mut Source::new(vec![0xC0, 0xBB, 0x78]), 32), Ok(-123456));
    assert_eq!(deserialize_signed_leb_128(&mut Source::new(vec![0xC0, 0xBB, 0x78]), 64), Ok(-123456));
    assert_eq!(
        deserialize_signed_leb_128(&mut Source::new(vec![0xC0, 0xBB]), 64),
        Err(Error::UnexpectedEndOfStream)
    );
}

// strings

#[test]
fn can_deserialize_ascii_string() {
    let mut iter = Source::new(vec![0x0C, 0x48, 0x65, 0x6C, 0x6C, 0x6F, 0x20, 0x57, 0x6F, 0x72, 0x6C, 0x64, 0x21]);
    let result: String = deserialize(&mut iter).unwrap();
    assert_eq!(result, "Hello World!");
}

#[test]
fn can_deserialize_multibyte_utf8_string() {
    let mut iter = Source::new(vec![0x0A, 0x48, 0x65, 0x61, 0x72, 0x74, 0x20, 0xF0, 0x9F, 0x92, 0x96]);
    let result: String = deserialize(&mut iter).unwrap();
    assert_eq!(result, "Heart \u{1F496}");
}

#[test]
fn string_that_is_not_utf8_fails() {
    let mut iter = Source::new(vec![0x02, 0xFF, 0xFE]);
    let result: Result<String, Error> = deserialize(&mut iter);
    assert_eq!(result, Err(Error::InvalidUtf8Encoding));
}

// unsigned integers

#[test]
fn can_deserialize_spec_u8() {
    let mut iter = Source::new(vec![0x03]);
    let result: u8 = deserialize(&mut iter).unwrap();
    assert_eq!(result, 3);
}

#[test]
fn can_deserialize_multibyte_spec_u8() {
    let mut iter = Source::new(vec![0x83, 0x00]);
    let result: u8 = deserialize(&mut iter).unwrap();
    assert_eq!(result, 3);
}

#[test]
#[should_panic]
fn fails_to_deserialize_spec_multibyte_u8() {
    let mut iter = Source::new(vec![0x83, 0x10]);
    let _: u8 = deserialize(&mut iter).unwrap();
}

#[test]
fn can_deserialize_multibyte_u8() {
    let mut iter = Source::new(vec![0x8E, 0x81, 0x80, 0x00]);
    let result: u8 = deserialize(&mut iter).unwrap();
    assert_eq!(result, 142);
}

#[test]
#[should_panic]
fn fails_to_deserialize_overflowing_u8() {
    let mut iter = Source::new(vec![0x8E, 0x82, 0x80, 0x00]);
    let _: u8 = deserialize(&mut iter).unwrap();
}

#[test]
fn unsigned_leb_128_of_each_width() {
    assert_eq!(deserialize_unsigned_leb_128(&mut Source::new(vec![0xFF, 0x01]), 8), Ok(255));
    assert_eq!(
        deserialize_unsigned_leb_128(&mut Source::new(vec![0x80, 0x02]), 8),
        Err(Error::OutOfRangeUnsignedInteger)
    );
    assert_eq!(deserialize_unsigned_leb_128(&mut Source::new(vec![0x80, 0x02]), 16), Ok(256));
    assert_eq!(deserialize_unsigned_leb_128(&mut Source::new(vec![0xE5, 0x8E, 0x26]), 32), Ok(624485));
    assert_eq!(
        deserialize_unsigned_leb_128(
            &mut Source::new(vec![0xFF, 0xFF, 0xFF, 0xFF, 0xFF, 0xFF, 0xFF, 0xFF, 0xFF, 0x01]),
            64
        ),
        Ok(u64::MAX)
    );
    assert_eq!(deserialize_unsigned_leb_128(&mut Source::new(vec![0x80]), 64), Err(Error::UnexpectedEndOfStream));
}

// vectors

#[test]
fn vec_can_deserialize_vec_of_bytes() {
    let mut iter = Source::new(vec![0x04, 0x01, 0x02, 0x03, 0x04]);
    let result: Vec<Byte> = deserialize(&mut iter).unwrap();
    assert_eq!(result, vec![Byte(0x01), Byte(0x02), Byte(0x03), Byte(0x04)]);
}

#[test]
fn can_deserialize_vec_vec() {
    let mut iter = Source::new(vec![0x02, 0x02, 0x2A, 0x03, 0x8E, 0x01]);
    let result: VecVec<u8> = deserialize(&mut iter).unwrap();
    assert_eq!(result, VecVec(vec![42, 42, 142, 142, 142]));
}

#[test]
fn vec_vec_of_no_runs_and_of_empty_runs_is_empty() {
    let none: VecVec<u8> = deserialize(&mut Source::new(vec![0x00])).unwrap();
    assert_eq!(none, VecVec(vec![]));
    let empty: VecVec<u8> = deserialize(&mut Source::new(vec![0x02, 0x00, 0x2A, 0x00, 0x2B])).unwrap();
    assert_eq!(empty, VecVec(vec![]));
}
