use elucidator::error::{ElucidatorError, InternalError, ParsingFailure, SpecificationFailure};
use elucidator::token::TokenClone;

#[test]
fn merge_flattens_nested_errors() {
    let a = ElucidatorError::BufferSizing { expected: 1, found: 0 };
    let b = ElucidatorError::Narrowing { from: "u8".to_string(), to: "i8".to_string() };
    let nested = ElucidatorError::MultipleErrors(Box::new(vec![a.duplicate(), b.duplicate()]));
    let c = ElucidatorError::Conversion { from: "string".to_string(), to: "u8".to_string() };
    assert_eq!(
        ElucidatorError::merge(&[nested, c.duplicate()]),
        ElucidatorError::MultipleErrors(Box::new(vec![a.duplicate(), b.duplicate(), c.duplicate()]))
    );
    assert_eq!(ElucidatorError::merge(&[a.duplicate()]), a);
    assert_eq!(ElucidatorError::merge_with(&a, &b), ElucidatorError::MultipleErrors(Box::new(vec![a.duplicate(), b.duplicate()])));
}

#[test]
fn internal_merge_drops_repeats() {
    let e = InternalError::Parsing {
        offender: TokenClone::new("x", 2),
        reason: ParsingFailure::UnexpectedEndOfExpression,
    };
    let f = InternalError::IllegalSpecification {
        offender: TokenClone::new("y", 4),
        reason: SpecificationFailure::IllegalDataType,
    };
    assert_eq!(
        InternalError::merge(&[e.duplicate(), f.duplicate(), e.duplicate()]),
        InternalError::MultipleFailures(vec![e.duplicate(), f.duplicate()])
    );
    assert_eq!(InternalError::merge(&[e.duplicate(), e.duplicate()]), e);
}

#[test]
fn error_texts() {
    assert_eq!(
        ElucidatorError::BufferSizing { expected: 8, found: 3 }.to_display_string(),
        "Buffer expected size of 8 bytes, found 3 instead"
    );
    assert_eq!(
        ElucidatorError::new_conversion::<u8>("string", "u8").unwrap_err().to_display_string(),
        "Cannot convert string to u8"
    );
    assert_eq!(
        ParsingFailure::IllegalCharacters(vec!['[', ']']).to_display_string(),
        "Illegal characters encountered: [, ]"
    );
    let e = InternalError::Parsing {
        offender: TokenClone::new("x", 2),
        reason: ParsingFailure::UnexpectedEndOfExpression,
    };
    assert_eq!(e.to_display_string(), "Failed to parse due to Unexpected end of expression: Cols 2-3: x");
}

#[test]
fn merge_is_associative() {
    let a = || ElucidatorError::BufferSizing { expected: 8, found: 3 };
    let b = || ElucidatorError::new_conversion::<u8>("string", "u8").unwrap_err();
    let c = || ElucidatorError::merge(&[
        ElucidatorError::BufferSizing { expected: 1, found: 0 },
        ElucidatorError::BufferSizing { expected: 2, found: 0 },
    ]);
    let all = ElucidatorError::merge(&[a(), b(), c()]);
    assert_eq!(ElucidatorError::merge(&[ElucidatorError::merge(&[a(), b()]), c()]), all);
    assert_eq!(ElucidatorError::merge(&[a(), ElucidatorError::merge(&[b(), c()])]), all);
}

#[test]
fn errors_clone_equal() {
    let e = ElucidatorError::merge(&[
        ElucidatorError::BufferSizing { expected: 1, found: 0 },
        ElucidatorError::BufferSizing { expected: 2, found: 0 },
    ]);
    assert_eq!(e.clone(), e);
    let i = InternalError::Parsing {
        offender: TokenClone::new("x", 0),
        reason: ParsingFailure::UnexpectedEndOfExpression,
    };
    assert_eq!(i.clone(), i);
}
