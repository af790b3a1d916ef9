use elucidator::error::ElucidatorError;
use elucidator::member::Dtype;
use elucidator::representable::Representable;
use elucidator::value::DataValue;

fn crab_emoji() -> String {
    String::from('\u{1F980}')
}

#[test]
fn u8_as_buffer_ok() {
    let value: u8 = 35;
    let expected = value.to_le_bytes();
    assert_eq!(value.as_buffer(), expected);
}

#[test]
fn u32_as_buffer_ok() {
    let value: u32 = 35;
    let expected = value.to_le_bytes();
    assert_eq!(value.as_buffer(), expected);
}

#[test]
fn u16_vec_as_buffer_ok() {
    let value: Vec<u16> = vec![0xFFFF, 0xAB];
    let expected: Vec<u8> = vec![0xFF, 0xFF, 0xAB, 0x00];
    assert_eq!(value.as_buffer(), expected);
}

#[test]
fn string_as_buffer_ok() {
    let value = "cat".to_string();
    let expected: Vec<u8> = vec![
        0x03, 0x00, 0x00, 0x00, 0x00, 0x00, 0x00, 0x00, b'c', b'a', b't',
    ];
    assert_eq!(value.as_buffer(), expected);
}

#[test]
fn string_utf8_as_buffer_ok() {
    let value = crab_emoji();
    let expected: Vec<u8> = vec![
        0x04, 0x00, 0x00, 0x00, 0x00, 0x00, 0x00, 0x00, 0xF0, 0x9F, 0xA6, 0x80,
    ];
    assert_eq!(value.as_buffer(), expected);
}

#[test]
fn signed_as_buffer_is_twos_complement() {
    assert_eq!((-2i16).as_buffer(), (-2i16).to_le_bytes().to_vec());
    assert_eq!(i64::MIN.as_buffer(), i64::MIN.to_le_bytes().to_vec());
    assert_eq!(vec![-1i32, 7].as_buffer(), vec![0xFF, 0xFF, 0xFF, 0xFF, 7, 0, 0, 0]);
}

#[test]
fn vec_u8_to_vec_u16() {
    let source: Vec<u8> = vec![u8::default()];
    assert_eq!(source.as_vec_u16(), Ok(vec![u16::default()]));
}

#[test]
fn vec_u8_to_vec_i8() {
    let source: Vec<u8> = vec![u8::default()];
    assert_eq!(source.as_vec_i8(), ElucidatorError::new_narrowing("u8 array", "i8 array"));
}

#[test]
fn vec_u16_to_vec_i16() {
    let source: Vec<u16> = vec![u16::default()];
    assert_eq!(source.as_vec_i16(), ElucidatorError::new_narrowing("u16 array", "i16 array"));
}

#[test]
fn vec_i8_to_vec_i64_keeps_values() {
    let source: Vec<i8> = vec![-128, 0, 127];
    assert_eq!(source.as_vec_i64(), Ok(vec![-128i64, 0, 127]));
}

#[test]
fn scalar_conversions() {
    assert_eq!(200u8.as_u16(), Ok(200u16));
    assert_eq!(200u8.as_i16(), Ok(200i16));
    assert_eq!(200u8.as_i8(), ElucidatorError::new_narrowing("u8", "i8"));
    assert_eq!((-5i32).as_i64(), Ok(-5i64));
    assert_eq!((-5i32).as_u64(), ElucidatorError::new_narrowing("i32", "u64"));
    assert_eq!(5u32.as_i32(), ElucidatorError::new_narrowing("u32", "i32"));
    assert_eq!(5u64.as_string(), ElucidatorError::new_conversion("u64", "string"));
    assert_eq!(5u64.as_vec_u64(), ElucidatorError::new_conversion("u64", "u64 array"));
    assert_eq!(vec![1u8].as_u8(), ElucidatorError::new_conversion("u8 array", "u8"));
    assert_eq!("x".to_string().as_u8(), ElucidatorError::new_conversion("string", "u8"));
    assert_eq!("x".to_string().as_string(), Ok("x".to_string()));
}

#[test]
fn introspection() {
    assert!(5u8.is_numeric() && !5u8.is_array() && !5u8.is_signed() && 5u8.is_integer());
    assert!(!5u8.is_floating());
    assert_eq!((-1i16).get_dtype(), Dtype::SignedInteger16);
    assert!(vec![1i64].is_array() && vec![1i64].is_signed());
    assert!(!"a".to_string().is_numeric());
    assert_eq!("a".to_string().get_dtype(), Dtype::Str);
}

#[test]
fn data_value_representable() {
    let f = DataValue::Float32(7.0f32.to_bits());
    assert!(f.is_floating() && f.is_signed() && !f.is_integer());
    assert_eq!(f.get_dtype(), Dtype::Float32);
    assert_eq!(f.as_u64(), ElucidatorError::new_narrowing("f32", "u64"));
    assert_eq!(Representable::as_buffer(&f), 7.0f32.to_le_bytes().to_vec());
    let a = DataValue::UnsignedInteger16Array(vec![1, 2]);
    assert_eq!(a.as_vec_u32(), Ok(vec![1u32, 2]));
    assert_eq!(a.as_u16(), ElucidatorError::new_conversion("u16 array", "u16"));
    let fa = DataValue::Float64Array(vec![1.5f64.to_bits()]);
    assert_eq!(fa.as_vec_i64(), ElucidatorError::new_narrowing("f64 array", "i64 array"));
}
