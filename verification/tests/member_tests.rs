use std::collections::HashMap;

use elucidator::error::{ElucidatorError, ParsingFailure, SpecificationFailure};
use elucidator::member::{Dtype, MemberSpecification, Sizing, TypeSpecification};

fn crab_emoji() -> String {
    String::from('\u{1F980}')
}

#[test]
fn typespec_non_ascii_str() {
    let crab_emoji = crab_emoji();
    assert_eq!(
        TypeSpecification::from(&crab_emoji),
        Err(ElucidatorError::Parsing {
            offender: crab_emoji,
            reason: ParsingFailure::NonAsciiEncoding,
        })
    );
}

#[test]
fn typespec_fails_nesting() {
    let ts = "u32[10][10]";
    assert!(TypeSpecification::from(ts).is_err());
}

#[test]
fn typespec_fails_missing_rbracket() {
    let ts = "u32[10";
    assert!(TypeSpecification::from(ts).is_err());
}

#[test]
fn typespec_fails_extra_lbracket() {
    let ts = "u32[[10]";
    assert!(TypeSpecification::from(ts).is_err());
}

#[test]
fn typespec_fails_extra_rbracket() {
    let ts = "u32[10]]";
    assert!(TypeSpecification::from(ts).is_err());
}

#[test]
fn typespec_fails_extra_chars() {
    let ts = "u32[10]stuff";
    assert_eq!(
        TypeSpecification::from(ts),
        Err(ElucidatorError::Parsing {
            offender: ts.to_string(),
            reason: ParsingFailure::UnexpectedEndOfExpression,
        })
    );
}

#[test]
fn typespec_gets_singleton() {
    let ts = "u32";
    assert_eq!(
        TypeSpecification::from(ts),
        Ok(TypeSpecification {
            dtype: Dtype::UnsignedInteger32,
            sizing: Sizing::Singleton,
        })
    );
}

#[test]
fn typespec_gets_fixed() {
    let ts = "u32[10]";
    assert_eq!(
        TypeSpecification::from(ts),
        Ok(TypeSpecification {
            dtype: Dtype::UnsignedInteger32,
            sizing: Sizing::Fixed(10_u64),
        })
    );
}

#[test]
fn typespec_gets_dynamic_empty() {
    let ts = "u32[]";
    assert_eq!(
        TypeSpecification::from(ts),
        Ok(TypeSpecification {
            dtype: Dtype::UnsignedInteger32,
            sizing: Sizing::Dynamic,
        })
    );
}

#[test]
fn typespec_gets_dynamic_whitespace() {
    let ts = "u32[     ]";
    assert_eq!(
        TypeSpecification::from(ts),
        Ok(TypeSpecification {
            dtype: Dtype::UnsignedInteger32,
            sizing: Sizing::Dynamic,
        })
    );
}

#[test]
fn memberspec_non_ascii_str() {
    let crab_emoji = crab_emoji();
    assert_eq!(
        MemberSpecification::from(&crab_emoji),
        Err(ElucidatorError::Parsing {
            offender: crab_emoji,
            reason: ParsingFailure::NonAsciiEncoding,
        })
    );
}

#[test]
fn memberspec_invalid_identifier_start() {
    let invalid_ident = "5ever";
    assert_eq!(
        MemberSpecification::from(&format!("{invalid_ident}: u32")),
        Err(ElucidatorError::Parsing {
            offender: invalid_ident.to_string(),
            reason: ParsingFailure::IdentifierStartsNonAlphabetical,
        })
    );
}

#[test]
fn memberspec_invalid_identifier_char() {
    let mut illegal_chars = vec!['{', '}', '?'];
    illegal_chars.sort();
    let invalid_ident: String = illegal_chars.iter().collect();
    assert_eq!(
        MemberSpecification::from(&format!("{invalid_ident}: u32")),
        Err(ElucidatorError::Parsing {
            offender: invalid_ident.to_string(),
            reason: ParsingFailure::IllegalCharacters(illegal_chars),
        })
    );
}

fn get_dtype_map() -> HashMap<&'static str, Result<Dtype, ElucidatorError>> {
    HashMap::from([
        ("u8", Ok(Dtype::Byte)),
        ("u16", Ok(Dtype::UnsignedInteger16)),
        ("u32", Ok(Dtype::UnsignedInteger32)),
        ("u64", Ok(Dtype::UnsignedInteger64)),
        ("i8", Ok(Dtype::SignedInteger8)),
        ("i16", Ok(Dtype::SignedInteger16)),
        ("i32", Ok(Dtype::SignedInteger32)),
        ("i64", Ok(Dtype::SignedInteger64)),
        ("f32", Ok(Dtype::Float32)),
        ("f64", Ok(Dtype::Float64)),
        ("string", Ok(Dtype::Str)),
    ])
}

#[test]
fn dtype_non_ascii_str() {
    let crab_emoji = crab_emoji();
    assert_eq!(
        Dtype::from(&crab_emoji),
        Err(ElucidatorError::Parsing {
            offender: crab_emoji,
            reason: ParsingFailure::NonAsciiEncoding,
        })
    );
}

#[test]
fn dtype_illegal_dtype() {
    let invalid_dtype = "e32";
    assert_eq!(
        Dtype::from(invalid_dtype),
        Err(ElucidatorError::Parsing {
            offender: invalid_dtype.to_string(),
            reason: ParsingFailure::IllegalDataType,
        })
    );
}

#[test]
fn dtype_all_parsed_correct() {
    let result_map = get_dtype_map()
        .keys()
        .map(|x| (*x, Dtype::from(x)))
        .collect::<HashMap<&str, Result<Dtype, ElucidatorError>>>();
    assert_eq!(result_map, get_dtype_map());
}

#[test]
fn dtype_from_trims_surrounding_whitespace() {
    assert_eq!(Dtype::from("  i64\t"), Ok(Dtype::SignedInteger64));
}

#[test]
fn typespec_fixed_zero_is_accepted() {
    assert_eq!(
        TypeSpecification::from("u8[0]"),
        Ok(TypeSpecification { dtype: Dtype::Byte, sizing: Sizing::Fixed(0) })
    );
}

#[test]
fn typespec_illegal_sizing_err() {
    let ts = "u8[cat]";
    assert_eq!(
        TypeSpecification::from(ts),
        Err(ElucidatorError::Parsing {
            offender: ts.to_string(),
            reason: ParsingFailure::IllegalArraySizing,
        })
    );
}

#[test]
fn memberspec_missing_delimiter_err() {
    let text = "foo u8";
    assert_eq!(
        MemberSpecification::from(text),
        Err(ElucidatorError::Parsing {
            offender: text.to_string(),
            reason: ParsingFailure::MissingIdSpecDelimiter,
        })
    );
}

#[test]
fn memberspec_ok_and_display() {
    let m = MemberSpecification::from("bar: f32[10]").unwrap();
    assert_eq!(m, MemberSpecification::from_parts("bar", &Sizing::Fixed(10), &Dtype::Float32));
    assert_eq!(m.to_display_string(), "bar: f32[10]");
    let d = MemberSpecification::from_parts("baz", &Sizing::Dynamic, &Dtype::Str);
    assert_eq!(d.to_display_string(), "baz: string[]");
}

#[test]
fn member_identifier_drops_white_space() {
    let spaced = MemberSpecification::from("foo : u32").unwrap();
    let tight = MemberSpecification::from("foo: u32").unwrap();
    assert_eq!(spaced, tight);
    assert_eq!(spaced.to_display_string(), "foo: u32");
}

#[test]
fn string_arrays_refused() {
    let dynamic = TypeSpecification::from("string[]");
    assert_eq!(
        dynamic,
        Err(ElucidatorError::IllegalSpecification {
            offender: "string[]".to_string(),
            reason: SpecificationFailure::IllegalArraySizing,
        })
    );
    assert!(TypeSpecification::from("string[3]").is_err());
    assert!(TypeSpecification::from("string").is_ok());
    assert!(MemberSpecification::from("s: string[2]").is_err());
}
