//! A type specification: a data type with its array sizing, as in `u32[10]`.
use vstd::prelude::*;
use vstd::string::*;
use crate::error::{
    ElucidatorError, ElucidatorErrorV, ParsingFailure, ParsingFailureV, SpecificationFailure, SpecificationFailureV,
};
use crate::helper::{spec_validated_trimmed, validated_trimmed_or_err};
use crate::member::dtype::{spec_dtype_from, Dtype};
use crate::member::sizing::Sizing;
use crate::text::{
    all_white, chars_of, find_char, first_index, is_whitespace, parse_u64, parse_u64_chars,
};

verus! {

/// A data type together with how many values of it a member holds.
#[derive(Debug, Clone, Copy, PartialEq, Eq, Structural)]
pub struct TypeSpecification {
    pub dtype: Dtype,
    pub sizing: Sizing,
}

/// `spec_dtype_from` of `t`, given the sizing; a string is never an array, so a string with
/// a sizing other than a singleton is refused, naming the whole text `s`.
pub open spec fn typespec_with(s: Seq<char>, t: Seq<char>, sizing: Sizing) -> Result<TypeSpecification, ElucidatorErrorV> {
    match spec_dtype_from(t) {
        Ok(d) => if d == Dtype::Str && sizing != Sizing::Singleton {
            Err(
                ElucidatorErrorV::IllegalSpecification {
                    offender: s,
                    reason: SpecificationFailureV::IllegalArraySizing,
                },
            )
        } else {
            Ok(TypeSpecification { dtype: d, sizing })
        },
        Err(e) => Err(e),
    }
}

fn typespec_of(s: &str, d: Dtype, sizing: Sizing) -> (r: Result<TypeSpecification, ElucidatorError>)
    ensures
        r matches Ok(t) ==> t == (TypeSpecification { dtype: d, sizing })
            && !(d == Dtype::Str && sizing != Sizing::Singleton),
        r matches Err(e) ==> d == Dtype::Str && sizing != Sizing::Singleton && e@ == (
        ElucidatorErrorV::IllegalSpecification {
            offender: s@,
            reason: SpecificationFailureV::IllegalArraySizing,
        }),
{
    match (d, sizing) {
        (Dtype::Str, Sizing::Fixed(_)) | (Dtype::Str, Sizing::Dynamic) => Err(
            ElucidatorError::IllegalSpecification {
                offender: s.to_owned(),
                reason: SpecificationFailure::IllegalArraySizing,
            },
        ),
        _ => Ok(TypeSpecification { dtype: d, sizing }),
    }
}

/// What `TypeSpecification::from` gives of a text: after trimming and checking the characters,
/// a data type alone is a singleton; `dtype[n]` is fixed when `n` reads as a `u64`, `dtype[]`
/// (blanks allowed inside) is dynamic; a string array is refused.
pub open spec fn spec_typespec_from(s: Seq<char>) -> Result<TypeSpecification, ElucidatorErrorV> {
    match spec_validated_trimmed(s) {
        Err(e) => Err(e),
        Ok(t) => match first_index(t, '[') {
            None => typespec_with(s, t, Sizing::Singleton),
            Some(li) => if t.len() > 0 && t.last() == ']' {
                let inside = t.subrange(li + 1, t.len() - 1);
                match parse_u64(inside) {
                    Some(n) => typespec_with(s, t.subrange(0, li), Sizing::Fixed(n)),
                    None => if all_white(inside) {
                        typespec_with(s, t.subrange(0, li), Sizing::Dynamic)
                    } else {
                        Err(
                            ElucidatorErrorV::Parsing {
                                offender: s,
                                reason: ParsingFailureV::IllegalArraySizing,
                            },
                        )
                    },
                }
            } else {
                Err(
                    ElucidatorErrorV::Parsing {
                        offender: s,
                        reason: ParsingFailureV::UnexpectedEndOfExpression,
                    },
                )
            },
        },
    }
}

fn all_white_chars(v: &[char], from: usize, to: usize) -> (b: bool)
    requires
        from <= to <= v@.len(),
    ensures
        b == all_white(v@.subrange(from as int, to as int)),
{
    let mut i = from;
    while i < to
        invariant
            from <= i <= to <= v@.len(),
            forall|j: int| from <= j < i ==> crate::text::white_space(#[trigger] v@[j]),
        decreases to - i,
    {
        if !is_whitespace(v[i]) {
            assert(v@.subrange(from as int, to as int)[i - from] == v@[i as int]);
            return false;
        }
        i = i + 1;
    }
    assert forall|j: int| 0 <= j < to - from implies crate::text::white_space(
        #[trigger] v@.subrange(from as int, to as int)[j],
    ) by {
        assert(v@.subrange(from as int, to as int)[j] == v@[from + j]);
    }
    true
}

impl TypeSpecification {
    /// Parses a type specification such as `u32`, `u32[10]` or `u32[]`.
    pub fn from(s: &str) -> (r: Result<TypeSpecification, ElucidatorError>)
        ensures
            r matches Ok(t) ==> spec_typespec_from(s@) == Ok::<TypeSpecification, ElucidatorErrorV>(t),
            r matches Err(e) ==> spec_typespec_from(s@) == Err::<TypeSpecification, ElucidatorErrorV>(e@),
    {
        let type_spec = validated_trimmed_or_err(s)?;
        let v = chars_of(type_spec);
        let n = v.len();
        proof {
            assert(v@.subrange(0, n as int) =~= v@);
        }
        match find_char(v.as_slice(), '[', 0, n) {
            None => {
                let d = Dtype::from(type_spec)?;
                typespec_of(s, d, Sizing::Singleton)
            },
            Some(li) => {
                if n > 0 && v[n - 1] == ']' {
                    assert(li < n - 1);
                    let dtype_text = type_spec.substring_char(0, li);
                    match parse_u64_chars(v.as_slice(), li + 1, n - 1) {
                        Some(size) => {
                            let d = Dtype::from(dtype_text)?;
                            typespec_of(s, d, Sizing::Fixed(size))
                        },
                        None => {
                            if all_white_chars(v.as_slice(), li + 1, n - 1) {
                                let d = Dtype::from(dtype_text)?;
                                typespec_of(s, d, Sizing::Dynamic)
                            } else {
                                Err(
                                    ElucidatorError::Parsing {
                                        offender: s.to_owned(),
                                        reason: ParsingFailure::IllegalArraySizing,
                                    },
                                )
                            }
                        },
                    }
                } else {
                    Err(
                        ElucidatorError::Parsing {
                            offender: s.to_owned(),
                            reason: ParsingFailure::UnexpectedEndOfExpression,
                        },
                    )
                }
            },
        }
    }
}

} // verus!
