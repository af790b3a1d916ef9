use std::collections::{HashMap, HashSet};

use elucidator::designation::DesignationSpecification;
use elucidator::error::ElucidatorError;
use elucidator::member::{Dtype, MemberSpecification, Sizing};
use elucidator::representable::Representable;
use elucidator::value::DataValue;
use rand::{random, Rng};

fn crab_emoji() -> String {
    String::from('\u{1F980}')
}

fn bits32(v: &[f32]) -> Vec<u32> {
    v.iter().map(|x| x.to_bits()).collect()
}

fn bits64(v: &[f64]) -> Vec<u64> {
    v.iter().map(|x| x.to_bits()).collect()
}

fn as_map<'a>(v: Vec<(&'a str, DataValue)>) -> HashMap<&'a str, DataValue> {
    v.into_iter().collect()
}

#[test]
fn multiple_members_ok() {
    let text = "foo: u32, bar: f32[10], baz: string";
    let dspec = DesignationSpecification::from_text(text);
    assert_eq!(
        dspec,
        Ok(DesignationSpecification::from_members(vec![
            MemberSpecification::from_parts("foo", &Sizing::Singleton, &Dtype::UnsignedInteger32),
            MemberSpecification::from_parts("bar", &Sizing::Fixed(10), &Dtype::Float32),
            MemberSpecification::from_parts("baz", &Sizing::Singleton, &Dtype::Str),
        ])
        .unwrap())
    );
}

#[test]
fn compare_dv_hm() {
    let left = HashMap::from([
        ("foo", DataValue::Byte(9)),
        ("bar", DataValue::Float32Array(bits32(&[-5.0, -10.0, 3.14]))),
    ]);
    let right = HashMap::from([
        ("foo", DataValue::Byte(9)),
        ("bar", DataValue::Float32Array(bits32(&[-5.0, -10.0, 3.14]))),
    ]);
    assert_eq!(left, right);
}

#[test]
fn simple_interpret_enum() {
    let hm = HashMap::from([
        ("foo", DataValue::Byte(9)),
        ("bar", DataValue::Float32Array(bits32(&[-5.0, -10.0, 3.14]))),
    ]);
    let buff_foo = hm.get("foo").unwrap().as_buffer();
    let buff_bar = hm.get("bar").unwrap().as_buffer();
    let buffer: Vec<u8> = buff_foo.iter().chain(buff_bar.iter()).copied().collect();
    let designation = DesignationSpecification::from_text("foo: u8, bar: f32[3]").unwrap();
    let result = designation.interpret_enum(&buffer).map(as_map);
    assert_eq!(result, Ok(hm));
}

#[test]
fn complex_interpret_enum() {
    let foo_vec: Vec<i16> = vec![-1, 2, 1025];
    let bar_vec: Vec<u64> = bits64(&[3.1415, 2.71]);
    let baz_vec: Vec<i8> = vec![-3, 4, -5, 6];
    let hm = HashMap::from([
        ("foo", DataValue::SignedInteger16Array(foo_vec.clone())),
        ("bar", DataValue::Float64Array(bar_vec)),
        ("baz", DataValue::SignedInteger8Array(baz_vec.clone())),
    ]);
    let foo_size_buf = (foo_vec.len() as u64).to_le_bytes();
    let baz_size_buf = (baz_vec.len() as u64).to_le_bytes();
    let buffer: Vec<u8> = foo_size_buf
        .iter()
        .chain(hm.get("foo").unwrap().as_buffer().iter())
        .chain(hm.get("bar").unwrap().as_buffer().iter())
        .chain(baz_size_buf.iter())
        .chain(hm.get("baz").unwrap().as_buffer().iter())
        .copied()
        .collect();
    let designation = DesignationSpecification::from_text("foo: i16[], bar: f64[2], baz: i8[]").unwrap();
    let result = designation.interpret_enum(&buffer).map(as_map);
    assert_eq!(result, Ok(hm));
}

fn random_data_value(dt: &Dtype, sizing: &Sizing) -> DataValue {
    let items = match sizing {
        Sizing::Singleton => 1,
        Sizing::Fixed(n) => *n,
        _ => (random::<u8>() % 100 + 1) as u64,
    };
    let single = sizing == &Sizing::Singleton;
    match dt {
        Dtype::Byte => {
            if single { DataValue::Byte(random()) } else { DataValue::ByteArray((0..items).map(|_| random::<u8>()).collect()) }
        }
        Dtype::UnsignedInteger16 => {
            if single { DataValue::UnsignedInteger16(random()) } else { DataValue::UnsignedInteger16Array((0..items).map(|_| random::<u16>()).collect()) }
        }
        Dtype::UnsignedInteger32 => {
            if single { DataValue::UnsignedInteger32(random()) } else { DataValue::UnsignedInteger32Array((0..items).map(|_| random::<u32>()).collect()) }
        }
        Dtype::UnsignedInteger64 => {
            if single { DataValue::UnsignedInteger64(random()) } else { DataValue::UnsignedInteger64Array((0..items).map(|_| random::<u64>()).collect()) }
        }
        Dtype::SignedInteger8 => {
            if single { DataValue::SignedInteger8(random()) } else { DataValue::SignedInteger8Array((0..items).map(|_| random::<i8>()).collect()) }
        }
        Dtype::SignedInteger16 => {
            if single { DataValue::SignedInteger16(random()) } else { DataValue::SignedInteger16Array((0..items).map(|_| random::<i16>()).collect()) }
        }
        Dtype::SignedInteger32 => {
            if single { DataValue::SignedInteger32(random()) } else { DataValue::SignedInteger32Array((0..items).map(|_| random::<i32>()).collect()) }
        }
        Dtype::SignedInteger64 => {
            if single { DataValue::SignedInteger64(random()) } else { DataValue::SignedInteger64Array((0..items).map(|_| random::<i64>()).collect()) }
        }
        Dtype::Float32 => {
            if single { DataValue::Float32(random::<f32>().to_bits()) } else { DataValue::Float32Array((0..items).map(|_| random::<f32>().to_bits()).collect()) }
        }
        Dtype::Float64 => {
            if single { DataValue::Float64(random::<f64>().to_bits()) } else { DataValue::Float64Array((0..items).map(|_| random::<f64>().to_bits()).collect()) }
        }
        _ => {
            let n_chars = random::<u8>() % 10;
            let s = (0..n_chars).map(|_| random::<char>()).collect();
            DataValue::Str(s)
        }
    }
}

fn random_sizing() -> Sizing {
    match random::<u8>() % 3 {
        0 => Sizing::Singleton,
        1 => Sizing::Fixed((random::<u8>() % 100 + 1) as u64),
        _ => Sizing::Dynamic,
    }
}

fn random_dtype() -> Dtype {
    match random::<u8>() % 11 {
        0 => Dtype::Byte,
        1 => Dtype::UnsignedInteger16,
        2 => Dtype::UnsignedInteger32,
        3 => Dtype::UnsignedInteger64,
        4 => Dtype::SignedInteger8,
        5 => Dtype::SignedInteger16,
        6 => Dtype::SignedInteger32,
        7 => Dtype::SignedInteger64,
        8 => Dtype::Float32,
        9 => Dtype::Float64,
        _ => Dtype::Str,
    }
}

fn random_dtype_sizing() -> (Sizing, Dtype) {
    let dtype = random_dtype();
    let sizing = if let Dtype::Str = dtype { Sizing::Singleton } else { random_sizing() };
    (sizing, dtype)
}

fn random_identifier() -> String {
    let mut rng = rand::thread_rng();
    let length = (random::<u8>() % 5) + 1;
    (0..length).map(|_| (rng.gen_range(b'a'..=b'z') as char)).collect()
}

fn random_designation_specification() -> DesignationSpecification {
    let num_members = random::<u8>() % 20 + 1;
    let members = loop {
        let candidates = (0..num_members)
            .map(|_| {
                let (sizing, dtype) = random_dtype_sizing();
                MemberSpecification::from_parts(&random_identifier(), &sizing, &dtype)
            })
            .collect::<Vec<_>>();
        let unique_names = candidates.iter().map(|x| x.identifier().to_string()).collect::<HashSet<_>>();
        if candidates.len() == unique_names.len() {
            break candidates;
        }
    };
    DesignationSpecification::from_members(members).unwrap()
}

fn into_blob(dv: &DataValue, sizing: &Sizing) -> Vec<u8> {
    let mut buffer = Vec::new();
    if let Sizing::Dynamic = sizing {
        let num_elements = match dv {
            DataValue::ByteArray(v) => v.len() as u64,
            DataValue::UnsignedInteger16Array(v) => v.len() as u64,
            DataValue::UnsignedInteger32Array(v) => v.len() as u64,
            DataValue::UnsignedInteger64Array(v) => v.len() as u64,
            DataValue::SignedInteger8Array(v) => v.len() as u64,
            DataValue::SignedInteger16Array(v) => v.len() as u64,
            DataValue::SignedInteger32Array(v) => v.len() as u64,
            DataValue::SignedInteger64Array(v) => v.len() as u64,
            DataValue::Float32Array(v) => v.len() as u64,
            DataValue::Float64Array(v) => v.len() as u64,
            _ => unreachable!("Only arrays should have dynamic sizing"),
        };
        buffer.extend_from_slice(&num_elements.to_le_bytes());
    }
    buffer.extend_from_slice(&dv.as_buffer());
    buffer
}

fn generate_designation_and_perform_round_trip() {
    let designation = random_designation_specification();
    let n_data = random::<u8>() % 50;
    for _ in 0..n_data {
        let datum: HashMap<&str, DataValue> = designation
            .members()
            .iter()
            .map(|m| (m.identifier(), random_data_value(&m.dtype(), &m.sizing())))
            .collect();
        let buffer: Vec<u8> = designation
            .members()
            .iter()
            .flat_map(|m| into_blob(datum.get(m.identifier()).unwrap(), &m.sizing()))
            .collect();
        let map = designation.interpret_enum(&buffer).map(as_map);
        let dr: Result<HashMap<&str, DataValue>, ElucidatorError> = Ok(datum.clone());
        assert_eq!(map, dr, "{designation:#?}\nBuffer size {}", buffer.len());
    }
}

#[test]
fn property_test_interpret_enum() {
    for _ in 0..1000 {
        generate_designation_and_perform_round_trip()
    }
}

#[test]
fn interpret_enum_keeps_member_order() {
    let designation = DesignationSpecification::from_text("b: u8, a: string").unwrap();
    let mut buffer = vec![7u8];
    buffer.extend_from_slice(&"hi".to_string().as_buffer());
    let result = designation.interpret_enum(&buffer).unwrap();
    assert_eq!(result, vec![("b", DataValue::Byte(7)), ("a", DataValue::Str("hi".to_string()))]);
}

#[test]
fn interpret_enum_short_buffer_err() {
    let designation = DesignationSpecification::from_text("a: u32, b: u16").unwrap();
    let result = designation.interpret_enum(&[1, 0, 0, 0, 5]);
    assert_eq!(result, Err(ElucidatorError::BufferSizing { expected: 2, found: 1 }));
}

#[test]
fn interpret_enum_bad_utf8_err() {
    let designation = DesignationSpecification::from_text("a: string").unwrap();
    let result = designation.interpret_enum(&[1, 0, 0, 0, 0, 0, 0, 0, 0xFF]);
    assert!(matches!(result, Err(ElucidatorError::FromUtf8 { .. })));
}

#[test]
fn from_text_reports_located_error() {
    let text = "foo: u32, 5bar: u8";
    let result = DesignationSpecification::from_text(text);
    assert_eq!(
        result,
        Err(ElucidatorError::Specification {
            context: " 5bar: u8\n ^^^^    ".to_string(),
            column_start: 10,
            column_end: 14,
            reason: "Identifiers must start with alphabetical character".to_string(),
        })
    );
}

#[test]
fn from_text_repeated_identifier_err() {
    let result = DesignationSpecification::from_text("foo: u8, foo: u16");
    assert!(matches!(result, Err(ElucidatorError::Specification { column_start: 9, column_end: 12, .. })));
}

#[test]
fn from_text_string_array_err() {
    let result = DesignationSpecification::from_text("foo: string[2]");
    assert!(matches!(result, Err(ElucidatorError::Specification { column_start: 0, column_end: 3, .. })));
}

#[test]
fn from_text_blank_is_empty() {
    assert_eq!(DesignationSpecification::from_text("  "), Ok(DesignationSpecification::from_members(Vec::new()).unwrap()));
}

#[test]
fn get_u8_from_buffer() {
    let expected_value: u8 = 7;
    let buffer = expected_value.as_buffer();
    let dt = Dtype::Byte;
    let value = dt.from_buffer(&buffer).unwrap();
    let resulting_buffer = value.as_buffer();
    assert_eq!(buffer, resulting_buffer);
    assert_eq!(value.as_u64().unwrap(), expected_value as u64);
}

#[test]
fn get_u16_from_buffer() {
    let expected_value: u16 = 7;
    let buffer = expected_value.as_buffer();
    let value = Dtype::UnsignedInteger16.from_buffer(&buffer).unwrap();
    assert_eq!(buffer, value.as_buffer());
    assert_eq!(value.as_u64().unwrap(), expected_value as u64);
}

#[test]
fn get_u32_from_buffer() {
    let expected_value: u32 = 7;
    let buffer = expected_value.as_buffer();
    let value = Dtype::UnsignedInteger32.from_buffer(&buffer).unwrap();
    assert_eq!(buffer, value.as_buffer());
    assert_eq!(value.as_u64().unwrap(), expected_value as u64);
}

#[test]
fn get_u64_from_buffer() {
    let expected_value: u64 = 7;
    let buffer = expected_value.as_buffer();
    let value = Dtype::UnsignedInteger64.from_buffer(&buffer).unwrap().as_u64().unwrap();
    let resulting_buffer = value.as_buffer();
    assert_eq!(buffer, resulting_buffer);
    assert_eq!(value, expected_value);
}

#[test]
fn get_i8_from_buffer() {
    let expected_value: i8 = 7;
    let buffer = expected_value.as_buffer();
    let value = Dtype::SignedInteger8.from_buffer(&buffer).unwrap();
    assert_eq!(buffer, value.as_buffer());
    assert_eq!(value.as_i64().unwrap(), expected_value as i64);
}

#[test]
fn get_i16_from_buffer() {
    let expected_value: i16 = 7;
    let buffer = expected_value.as_buffer();
    let value = Dtype::SignedInteger16.from_buffer(&buffer).unwrap();
    assert_eq!(buffer, value.as_buffer());
    assert_eq!(value.as_i64().unwrap(), expected_value as i64);
}

#[test]
fn get_i32_from_buffer() {
    let expected_value: i32 = 7;
    let buffer = expected_value.as_buffer();
    let value = Dtype::SignedInteger32.from_buffer(&buffer).unwrap();
    assert_eq!(buffer, value.as_buffer());
    assert_eq!(value.as_i64().unwrap(), expected_value as i64);
}

#[test]
fn get_i64_from_buffer() {
    let expected_value: i64 = 7;
    let buffer = expected_value.as_buffer();
    let value = Dtype::SignedInteger64.from_buffer(&buffer).unwrap().as_i64().unwrap();
    let resulting_buffer = value.as_buffer();
    assert_eq!(buffer, resulting_buffer);
    assert_eq!(value, expected_value);
}

#[test]
fn get_string_from_buffer() {
    let expected_value: String = "Hello world!".to_string();
    let buffer = expected_value.as_buffer();
    let value = Dtype::Str.from_buffer(&buffer).unwrap().as_string().unwrap();
    let resulting_buffer = value.as_buffer();
    assert_eq!(buffer, resulting_buffer);
    assert_eq!(value, expected_value);
}

#[test]
fn get_string_from_buffer_fails() {
    let buffer: Vec<u8> = vec![2, 0, 0, 0, 0, 0, 0, 0, 0, 159];
    let utf8_error = String::from_utf8(vec![0, 159]).err().unwrap();
    let value = Dtype::Str.from_buffer(&buffer);
    assert_eq!(value.err().unwrap(), ElucidatorError::FromUtf8 { source: utf8_error });
}

#[test]
fn from_buffer_wrong_size_err() {
    assert_eq!(
        Dtype::UnsignedInteger32.from_buffer(&[1, 2]),
        Err(ElucidatorError::BufferSizing { expected: 4, found: 2 })
    );
    assert_eq!(
        Dtype::Str.from_buffer(&[1, 0, 0]),
        Err(ElucidatorError::BufferSizing { expected: 8, found: 3 })
    );
    assert_eq!(
        Dtype::Str.from_buffer(&[5, 0, 0, 0, 0, 0, 0, 0, b'a']),
        Err(ElucidatorError::BufferSizing { expected: 13, found: 9 })
    );
}

#[test]
fn crab_round_trip() {
    let value = DataValue::Str(crab_emoji());
    let designation = DesignationSpecification::from_text("c: string").unwrap();
    assert_eq!(designation.interpret_enum(&value.as_buffer()), Ok(vec![("c", value)]));
}

type DataMap<'a> = HashMap<&'a str, DataValue>;

fn compare_hashmap(left: &DataMap, right: &DataMap) {
    let left_keys: HashSet<&str> = left.keys().copied().collect();
    let right_keys: HashSet<&str> = right.keys().copied().collect();
    assert_eq!(left_keys, right_keys);
    for key in left_keys {
        let lvalue = left.get(key).unwrap();
        let rvalue = right.get(key).unwrap();
        assert_eq!(lvalue.get_dtype(), rvalue.get_dtype());
        assert_eq!(lvalue.is_array(), rvalue.is_array());
        if lvalue.is_array() {
            match lvalue.get_dtype() {
                Dtype::Byte => assert_eq!(lvalue.as_vec_u8().unwrap(), rvalue.as_vec_u8().unwrap()),
                Dtype::UnsignedInteger16 => assert_eq!(lvalue.as_vec_u16().unwrap(), rvalue.as_vec_u16().unwrap()),
                Dtype::UnsignedInteger32 => assert_eq!(lvalue.as_vec_u32().unwrap(), rvalue.as_vec_u32().unwrap()),
                Dtype::UnsignedInteger64 => assert_eq!(lvalue.as_vec_u64().unwrap(), rvalue.as_vec_u64().unwrap()),
                Dtype::SignedInteger8 => assert_eq!(lvalue.as_vec_i8().unwrap(), rvalue.as_vec_i8().unwrap()),
                Dtype::SignedInteger16 => assert_eq!(lvalue.as_vec_i16().unwrap(), rvalue.as_vec_i16().unwrap()),
                Dtype::SignedInteger32 => assert_eq!(lvalue.as_vec_i32().unwrap(), rvalue.as_vec_i32().unwrap()),
                Dtype::SignedInteger64 => assert_eq!(lvalue.as_vec_i64().unwrap(), rvalue.as_vec_i64().unwrap()),
                _ => assert_eq!(lvalue, rvalue),
            }
        } else {
            match lvalue.get_dtype() {
                Dtype::Byte => assert_eq!(lvalue.as_u8().unwrap(), rvalue.as_u8().unwrap()),
                Dtype::UnsignedInteger16 => assert_eq!(lvalue.as_u16().unwrap(), rvalue.as_u16().unwrap()),
                Dtype::UnsignedInteger32 => assert_eq!(lvalue.as_u32().unwrap(), rvalue.as_u32().unwrap()),
                Dtype::UnsignedInteger64 => assert_eq!(lvalue.as_u64().unwrap(), rvalue.as_u64().unwrap()),
                Dtype::SignedInteger8 => assert_eq!(lvalue.as_i8().unwrap(), rvalue.as_i8().unwrap()),
                Dtype::SignedInteger16 => assert_eq!(lvalue.as_i16().unwrap(), rvalue.as_i16().unwrap()),
                Dtype::SignedInteger32 => assert_eq!(lvalue.as_i32().unwrap(), rvalue.as_i32().unwrap()),
                Dtype::SignedInteger64 => assert_eq!(lvalue.as_i64().unwrap(), rvalue.as_i64().unwrap()),
                Dtype::Str => assert_eq!(lvalue.as_string().unwrap(), rvalue.as_string().unwrap()),
                _ => assert_eq!(lvalue, rvalue),
            }
        }
    }
}

#[test]
fn designation_simple_ok() {
    let text = "foo: u32, bar: i32";
    let dspec = DesignationSpecification::from_text(text).unwrap();
    let expected: DataMap = HashMap::from([
        ("foo", DataValue::UnsignedInteger32(10_u32)),
        ("bar", DataValue::SignedInteger32(-10_i32)),
    ]);
    let buffer = expected.get("foo").unwrap().as_u32().unwrap().to_le_bytes().iter()
        .chain(expected.get("bar").unwrap().as_i32().unwrap().to_le_bytes().iter())
        .copied()
        .collect::<Vec<u8>>();
    let result = as_map(dspec.interpret(&buffer).unwrap());
    compare_hashmap(&expected, &result);
}

#[test]
fn simple_fixed_vec_ok() {
    let text = "foo: u32[3], bar: string";
    let dspec = DesignationSpecification::from_text(text).unwrap();
    let expected: DataMap = HashMap::from([
        ("foo", DataValue::UnsignedInteger32Array(vec![2_u32, 10_u32, 0xDEADBEEF_u32])),
        ("bar", DataValue::Str(crab_emoji())),
    ]);
    let buffer = expected.get("foo").unwrap().as_vec_u32().unwrap().as_buffer().iter()
        .chain(expected.get("bar").unwrap().as_string().unwrap().as_buffer().iter())
        .copied()
        .collect::<Vec<u8>>();
    let result = as_map(dspec.interpret(&buffer).unwrap());
    compare_hashmap(&expected, &result);
}

#[test]
fn simple_dynamic_vec_ok() {
    let text = "foo: u32[], bar: string";
    let dspec = DesignationSpecification::from_text(text).unwrap();
    let expected: DataMap = HashMap::from([
        ("foo", DataValue::UnsignedInteger32Array(vec![2_u32, 10_u32, 0xDEADBEEF_u32])),
        ("bar", DataValue::Str(crab_emoji())),
    ]);
    let buffer = [0x03, 0x00, 0x00, 0x00, 0x00, 0x00, 0x00, 0x00].iter()
        .chain(expected.get("foo").unwrap().as_vec_u32().unwrap().as_buffer().iter())
        .chain(expected.get("bar").unwrap().as_string().unwrap().as_buffer().iter())
        .copied()
        .collect::<Vec<u8>>();
    let result = as_map(dspec.interpret(&buffer).unwrap());
    compare_hashmap(&expected, &result);
}

#[test]
fn interpret_u8_ok() {
    let text = "foo: u8";
    let dspec = DesignationSpecification::from_text(text).unwrap();
    let val: u8 = 10;
    let result = dspec.interpret(val.to_le_bytes().as_ref());
    let result_val = as_map(result.unwrap()).get("foo").unwrap().as_u8().unwrap();
    assert_eq!(val, result_val);
}

#[test]
fn read_one_string_is_empty() {
    assert_eq!(elucidator::designation::read_one_string(&[3, 0, 0, 0, 0, 0, 0, 0]), Ok(String::new()));
    assert_eq!(
        elucidator::designation::read_one_string(&[3, 0]),
        Err(ElucidatorError::BufferSizing { expected: 8, found: 2 })
    );
}

#[test]
fn designation_display_lists_members() {
    let d = DesignationSpecification::from_text("a: u8, b: f32[2], c: string, v: i64[]").unwrap();
    assert_eq!(d.to_display_string(), "a: u8, b: f32[2], c: string, v: i64[]");
    let e = DesignationSpecification::from_text("").unwrap();
    assert_eq!(e.to_display_string(), "");
}

#[test]
fn white_space_around_parts_is_ignored() {
    let tight = DesignationSpecification::from_text("foo: u32,bar: f32[10],baz: i8[]").unwrap();
    let loose = DesignationSpecification::from_text("  foo :u32 ,\tbar : f32 [ 10 ] ,baz:i8[ ]  ").unwrap();
    assert_eq!(tight, loose);
    assert!(DesignationSpecification::from_text(" 5foo : u32 ").is_err());
    assert!(DesignationSpecification::from_text("5foo:u32").is_err());
}

#[test]
fn try_from_text_matches_from_text() {
    let r = DesignationSpecification::try_from_text("foo: u32, bar: f32[10]").unwrap();
    assert_eq!(r, DesignationSpecification::from_text("foo: u32, bar: f32[10]"));
    let bad = DesignationSpecification::try_from_text("foo: u9").unwrap();
    assert!(bad.is_err());
}

#[test]
fn every_shorter_buffer_fails() {
    let d = DesignationSpecification::from_text("a: u16, s: string, v: i32[], f: u8[2]").unwrap();
    let mut buf: Vec<u8> = Vec::new();
    buf.extend(7u16.as_buffer());
    buf.extend("hi".to_string().as_buffer());
    buf.extend(2u64.as_buffer());
    buf.extend(vec![-1i32, 5].as_buffer());
    buf.extend(vec![1u8, 2].as_buffer());
    assert!(d.interpret(&buf).is_ok());
    for k in 0..buf.len() {
        assert!(matches!(d.interpret(&buf[..k]), Err(ElucidatorError::BufferSizing { .. })));
    }
}

#[test]
fn from_members_checks_members() {
    let a = || MemberSpecification::from_parts("a", &Sizing::Singleton, &Dtype::Byte);
    let b = || MemberSpecification::from_parts("b", &Sizing::Dynamic, &Dtype::Float64);
    let d = DesignationSpecification::from_members(vec![a(), b()]).unwrap();
    assert_eq!(d.members().len(), 2);
    assert_eq!(DesignationSpecification::from_members(vec![a(), b(), a()]), None);
    let s = MemberSpecification::from_parts("s", &Sizing::Singleton, &Dtype::Str);
    assert!(DesignationSpecification::from_members(vec![s]).is_some());
}
