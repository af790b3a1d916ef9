use elucidator::error::{ElucidatorError, ParsingFailure, SpecificationFailure};
use elucidator::member::MemberSpecification;
use elucidator::specification::MetadataSpecification;

fn crab_emoji() -> String {
    String::from('\u{1F980}')
}

#[test]
fn specification_not_ascii_err() {
    let designation = crab_emoji();
    let md_spec = MetadataSpecification::from_str(&designation.as_str(), "foo: i32, bar: u8");
    assert_eq!(
        md_spec,
        Err(ElucidatorError::Parsing {
            offender: designation,
            reason: ParsingFailure::NonAsciiEncoding,
        })
    );
}

#[test]
fn non_alphabetical_start_err() {
    let designation = "123abc";
    let md_spec = MetadataSpecification::from_str(&designation, "foo: i32, bar: u8");
    assert_eq!(
        md_spec,
        Err(ElucidatorError::IllegalSpecification {
            offender: designation.to_string(),
            reason: SpecificationFailure::IdentifierStartsNonAlphabetical,
        })
    );
}

#[test]
fn designation_first_char_illegal_err() {
    let designation = "[my_designation]";
    let md_spec = MetadataSpecification::from_str(&designation, "foo: i32, bar: u8");
    assert!(md_spec.is_err());
}

#[test]
fn specification_contains_illegal_chars_err() {
    let designation = "my_designation[]";
    let md_spec = MetadataSpecification::from_str(&designation, "foo: i32, bar: u8");
    assert_eq!(
        md_spec,
        Err(ElucidatorError::Parsing {
            offender: designation.to_string(),
            reason: ParsingFailure::IllegalCharacters(vec!['[', ']']),
        })
    );
}

#[test]
fn is_ok() {
    let designation = "my_designation";
    let md_spec = MetadataSpecification::from_str(&designation, "foo: i32, bar: u8");
    let members = vec![
        MemberSpecification::from("foo: i32").unwrap(),
        MemberSpecification::from("bar: u8").unwrap(),
    ];
    let gt_md_spec = MetadataSpecification {
        designation: designation.to_string(),
        members,
    };
    assert_eq!(md_spec, Ok(gt_md_spec));
}

#[test]
fn spec_text_not_ascii_err() {
    let designation = "my_designation";
    let spec_text = crab_emoji();
    let md_spec = MetadataSpecification::from_str(designation, spec_text.as_str());
    assert_eq!(
        md_spec,
        Err(ElucidatorError::Parsing {
            offender: spec_text.to_string(),
            reason: ParsingFailure::NonAsciiEncoding,
        })
    );
}

#[test]
fn spec_text_contains_illegal_chars_err() {
    let designation = "my_designation";
    let spec_text = "foo[]: i32, bar: u8";
    let md_spec = MetadataSpecification::from_str(designation, spec_text);
    assert_eq!(
        md_spec,
        Err(ElucidatorError::Parsing {
            offender: spec_text.to_string(),
            reason: ParsingFailure::IllegalCharacters(vec!['[', ']']),
        })
    );
}

#[test]
fn illegal_first_char_err() {
    let designation = "my_designation";
    let spec_text = "<foo>: i32, bar: u8";
    let md_spec = MetadataSpecification::from_str(designation, spec_text);
    assert!(md_spec.is_err());
}

#[test]
fn member_repeated_err() {
    let designation = "my_designation";
    let spec_text = "foo: i32, foo: u8";
    let md_spec = MetadataSpecification::from_str(designation, spec_text);
    assert_eq!(
        md_spec,
        Err(ElucidatorError::IllegalSpecification {
            offender: "foo".to_string(),
            reason: SpecificationFailure::RepeatedIdentifier,
        })
    );
}

#[test]
fn multiple_failures_err() {
    let designation = "my_designation";
    let spec_text = "foo: i32, foo: u9";
    let md_spec = MetadataSpecification::from_str(designation, spec_text);

    let dtype_error = ElucidatorError::IllegalSpecification {
        offender: spec_text.to_string(),
        reason: SpecificationFailure::IllegalDataType,
    };
    let repeated_identifier_error = ElucidatorError::IllegalSpecification {
        offender: "foo".to_string(),
        reason: SpecificationFailure::RepeatedIdentifier,
    };
    let multiple_errors = vec![dtype_error, repeated_identifier_error];

    assert_eq!(
        md_spec,
        Err(ElucidatorError::MultipleFailures(Box::new(multiple_errors)))
    );
}

#[test]
fn unexpected_eoe_after_delimiter() {
    let designation = "my_designation";
    let spec_text = "foo: i32,";
    let md_spec = MetadataSpecification::from_str(designation, spec_text);
    assert_eq!(
        md_spec,
        Err(ElucidatorError::Parsing {
            offender: spec_text.to_string(),
            reason: ParsingFailure::UnexpectedEndOfExpression,
        })
    );
}

#[test]
fn unexpected_eoe_in_dtype() {
    let designation = "my_designation";
    let spec_text = "foo: [i32, bar: u8";
    let md_spec = MetadataSpecification::from_str(designation, spec_text);
    assert_eq!(
        md_spec,
        Err(ElucidatorError::Parsing {
            offender: spec_text.to_string(),
            reason: ParsingFailure::UnexpectedEndOfExpression,
        })
    );
}

#[test]
fn blank_members_ok() {
    let md_spec = MetadataSpecification::from_str("d", "   ");
    assert_eq!(
        md_spec,
        Ok(MetadataSpecification { designation: "d".to_string(), members: Vec::new() })
    );
}

#[test]
fn designation_and_members_both_fail() {
    let md_spec = MetadataSpecification::from_str("", "foo: i32,");
    assert_eq!(
        md_spec,
        Err(ElucidatorError::MultipleFailures(Box::new(vec![
            ElucidatorError::IllegalSpecification {
                offender: "".to_string(),
                reason: SpecificationFailure::ZeroLengthIdentifier,
            },
            ElucidatorError::Parsing {
                offender: "foo: i32,".to_string(),
                reason: ParsingFailure::UnexpectedEndOfExpression,
            },
        ])))
    );
}

#[test]
fn parse_spec_text_sections() {
    let results = MetadataSpecification::parse_spec_text(" foo: u8 , bar: i16[] ");
    assert_eq!(results.len(), 2);
    assert_eq!(results[0], MemberSpecification::from("foo: u8"));
    assert_eq!(results[1], MemberSpecification::from("bar: i16[]"));
    assert!(MetadataSpecification::parse_spec_text("  ").is_empty());
}

// A member that fails on its data type is reported with the whole specification text as the
// offender, as in `multiple_failures_err`.
#[test]
fn invalid_dtype_err() {
    let designation = "my_designation";
    let spec_text = "foo: i32, bar: u9";
    let md_spec = MetadataSpecification::from_str(designation, spec_text);
    assert_eq!(
        md_spec,
        Err(ElucidatorError::IllegalSpecification {
            offender: spec_text.to_string(),
            reason: SpecificationFailure::IllegalDataType,
        })
    );
}
