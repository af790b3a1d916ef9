use elucidator::error::{InternalError, ParsingFailure, SpecificationFailure};
use elucidator::member::{Dtype, MemberSpecification, Sizing};
use elucidator::parsing;
use elucidator::token::{DtypeToken, TokenClone, TokenData};
use elucidator::validating;

#[test]
fn valid_ident_ok() {
    let ident_text = "foo10";
    let ipo = parsing::get_identifier(ident_text, 0);
    let ident = validating::validate_identifier(&ipo.identifier.unwrap());
    assert_eq!(ident, Ok("foo10".to_string()));
}

#[test]
fn valid_ident_whitespace_ok() {
    let ident_text = "  foo10  ";
    let ipo = parsing::get_identifier(ident_text, 0);
    let ident = validating::validate_identifier(&ipo.identifier.unwrap());
    assert_eq!(ident, Ok("foo10".to_string()));
}

#[test]
fn invalid_whitespace_in_ident() {
    let ident_text = " foo \r\n\u{85}bar()\t";
    let ipo = parsing::get_identifier(ident_text, 0);
    let ident = validating::validate_identifier(&ipo.identifier.unwrap());
    assert_eq!(
        ident,
        Err(InternalError::IllegalSpecification {
            offender: TokenClone::new(ident_text.to_string().trim(), 1),
            reason: SpecificationFailure::IllegalCharacters(vec!['\n', '\r', ' ', '(', ')', '\u{85}']),
        })
    );
}

fn dtype_of(text: &str) -> Result<Dtype, InternalError> {
    let dpo = parsing::get_dtype(text, 0);
    validating::validate_dtype(&dpo.dtype.unwrap())
}

#[test]
fn u8_ok() {
    assert_eq!(dtype_of("u8"), Ok(Dtype::Byte));
}

#[test]
fn u16_ok() {
    assert_eq!(dtype_of("u16"), Ok(Dtype::UnsignedInteger16));
}

#[test]
fn u32_ok() {
    assert_eq!(dtype_of("u32"), Ok(Dtype::UnsignedInteger32));
}

#[test]
fn u64_ok() {
    assert_eq!(dtype_of("u64"), Ok(Dtype::UnsignedInteger64));
}

#[test]
fn i8_ok() {
    assert_eq!(dtype_of("i8"), Ok(Dtype::SignedInteger8));
}

#[test]
fn i16_ok() {
    assert_eq!(dtype_of("i16"), Ok(Dtype::SignedInteger16));
}

#[test]
fn i32_ok() {
    assert_eq!(dtype_of("i32"), Ok(Dtype::SignedInteger32));
}

#[test]
fn i64_ok() {
    assert_eq!(dtype_of("i64"), Ok(Dtype::SignedInteger64));
}

#[test]
fn f32_ok() {
    assert_eq!(dtype_of("f32"), Ok(Dtype::Float32));
}

#[test]
fn f64_ok() {
    assert_eq!(dtype_of("f64"), Ok(Dtype::Float64));
}

#[test]
fn string_ok() {
    assert_eq!(dtype_of("string"), Ok(Dtype::Str));
}

#[test]
fn empty_string() {
    let text = "";
    let dtype = validating::validate_dtype(&DtypeToken { data: TokenData::new(text, 0, 0) });
    assert_eq!(
        dtype,
        Err(InternalError::IllegalSpecification {
            offender: TokenClone::new(text, 0),
            reason: SpecificationFailure::IllegalDataType,
        })
    );
}

#[test]
fn leading_whitespace_ok() {
    assert_eq!(dtype_of("\u{85}\tu8"), Ok(Dtype::Byte));
}

#[test]
fn trailing_whitespace_ok() {
    assert_eq!(dtype_of("u8   \u{85}"), Ok(Dtype::Byte));
}

#[test]
fn null_character() {
    let text = "\0";
    assert_eq!(
        dtype_of(text),
        Err(InternalError::IllegalSpecification {
            offender: TokenClone::new(text, 0),
            reason: SpecificationFailure::IllegalDataType,
        })
    );
}

fn sizing_of(text: &str) -> Result<Sizing, InternalError> {
    let spo = parsing::get_sizing(text, 0);
    validating::validate_sizing(&spo.sizing.unwrap())
}

#[test]
fn dynamic_ok() {
    assert_eq!(sizing_of(""), Ok(Sizing::Dynamic));
}

#[test]
fn validating_dynamic_whitespace_ok() {
    assert_eq!(sizing_of("  \u{85}"), Ok(Sizing::Dynamic));
}

#[test]
fn validating_fixed_ok() {
    assert_eq!(sizing_of("10"), Ok(Sizing::Fixed(10)));
}

#[test]
fn validating_fixed_whitespace_ok() {
    assert_eq!(sizing_of("  10\u{85}"), Ok(Sizing::Fixed(10)));
}

#[test]
fn fixed_zero() {
    let text = "0";
    assert_eq!(
        sizing_of(text),
        Err(InternalError::IllegalSpecification {
            offender: TokenClone::new(text, 0),
            reason: SpecificationFailure::IllegalArraySizing,
        })
    );
}

#[test]
fn fixed_negative_fails() {
    let text = "-10";
    assert_eq!(
        sizing_of(text),
        Err(InternalError::IllegalSpecification {
            offender: TokenClone::new(text, 0),
            reason: SpecificationFailure::IllegalArraySizing,
        })
    );
}

#[test]
fn fixed_text_fails() {
    let text = "foobar";
    assert_eq!(
        sizing_of(text),
        Err(InternalError::IllegalSpecification {
            offender: TokenClone::new(text, 0),
            reason: SpecificationFailure::IllegalArraySizing,
        })
    );
}

#[test]
fn validating_singleton_ok() {
    let text = "foo: u32";
    let mpo = parsing::get_memberspec(text, 0);
    let member = validating::validate_memberspec(&mpo);
    assert_eq!(
        member,
        Ok(MemberSpecification::from_parts("foo", &Sizing::Singleton, &Dtype::UnsignedInteger32))
    );
}

#[test]
fn string_non_singleton_err() {
    let ident = "foo";
    let text = &format!("{ident}: string[]");
    let mpo = parsing::get_memberspec(text, 0);
    let member = validating::validate_memberspec(&mpo);
    assert_eq!(
        member,
        Err(InternalError::IllegalSpecification {
            offender: TokenClone::new(ident, 0),
            reason: SpecificationFailure::IllegalArraySizing,
        })
    );
}

#[test]
fn empty_err() {
    let text = "";
    let mpo = parsing::get_memberspec(text, 0);
    let member = validating::validate_memberspec(&mpo);
    assert!(member.is_err());
}

#[test]
fn ident_missing_err() {
    let text = ": u32";
    let mpo = parsing::get_memberspec(text, 0);
    let member = validating::validate_memberspec(&mpo);
    assert_eq!(
        member,
        Err(InternalError::Parsing {
            offender: TokenClone::new("", 0),
            reason: ParsingFailure::UnexpectedEndOfExpression,
        })
    )
}

#[test]
fn dtype_missing_err() {
    let text = "foo: []";
    let mpo = parsing::get_memberspec(text, 0);
    let member = validating::validate_memberspec(&mpo);
    assert_eq!(
        member,
        Err(InternalError::Parsing {
            offender: TokenClone::new(" ", 4),
            reason: ParsingFailure::UnexpectedEndOfExpression,
        })
    )
}

#[test]
fn multiple_failures_parsing_spec_err() {
    let text = "5eva: [";
    let mpo = parsing::get_memberspec(text, 0);
    let member = validating::validate_memberspec(&mpo);
    assert_eq!(
        member,
        Err(InternalError::merge(&vec![
            InternalError::Parsing {
                offender: TokenClone::new("", 6),
                reason: ParsingFailure::UnexpectedEndOfExpression,
            },
            InternalError::Parsing {
                offender: TokenClone::new(" ", 5),
                reason: ParsingFailure::UnexpectedEndOfExpression,
            },
            InternalError::IllegalSpecification {
                offender: TokenClone::new("5eva", 0),
                reason: SpecificationFailure::IdentifierStartsNonAlphabetical,
            },
        ]))
    );
}

#[test]
fn multiple_failures_spec_err() {
    let text = "5eva: u32[cat]";
    let mpo = parsing::get_memberspec(text, 0);
    let member = validating::validate_memberspec(&mpo);
    assert_eq!(
        member,
        Err(InternalError::merge(&vec![
            InternalError::IllegalSpecification {
                offender: TokenClone::new("5eva", 0),
                reason: SpecificationFailure::IdentifierStartsNonAlphabetical,
            },
            InternalError::IllegalSpecification {
                offender: TokenClone::new("cat", 10),
                reason: SpecificationFailure::IllegalArraySizing,
            },
        ]))
    );
}

#[test]
fn zero_length_identifier_err() {
    let itoken = elucidator::token::IdentifierToken { data: TokenData::new("", 3, 3) };
    assert_eq!(
        validating::validate_identifier(&itoken),
        Err(InternalError::IllegalSpecification {
            offender: TokenClone::new("", 3),
            reason: SpecificationFailure::ZeroLengthIdentifier,
        })
    );
}

#[test]
fn repeated_identifier_in_designation_err() {
    let parsed = parsing::get_metadataspec("foo: u8, foo: u16");
    assert_eq!(
        validating::validate_metadataspec(&parsed),
        Err(InternalError::IllegalSpecification {
            offender: TokenClone::new("foo", 9),
            reason: SpecificationFailure::RepeatedIdentifier,
        })
    );
}

// The offender is the trimmed identifier token, as in `invalid_whitespace_in_ident`; the token is
// not the untrimmed text.
#[test]
fn invalid_ident_err() {
    let ident_text = "5foo  ";
    let ipo = parsing::get_identifier(ident_text, 0);
    let ident = validating::validate_identifier(&ipo.identifier.unwrap());
    assert_eq!(
        ident,
        Err(InternalError::IllegalSpecification {
            offender: TokenClone::new(ident_text.trim(), 0),
            reason: SpecificationFailure::IdentifierStartsNonAlphabetical,
        })
    );
}

#[test]
fn member_text_reads_back() {
    for (id, sizing, dtype) in [
        ("foo", Sizing::Singleton, Dtype::UnsignedInteger32),
        ("bar_2", Sizing::Fixed(10), Dtype::Float32),
        ("s", Sizing::Singleton, Dtype::Str),
        ("d", Sizing::Dynamic, Dtype::SignedInteger64),
    ] {
        let m = MemberSpecification::from_parts(id, &sizing, &dtype);
        let text = m.to_display_string();
        let parsed = parsing::get_memberspec(&text, 0);
        assert_eq!(validating::validate_memberspec(&parsed), Ok(m));
    }
}
