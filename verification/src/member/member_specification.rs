//! A member: an identifier with its data type and sizing.
use vstd::prelude::*;
use vstd::string::*;
use crate::error::{ElucidatorError, ElucidatorErrorV, ParsingFailure, ParsingFailureV};
use crate::helper::{ascii_trimmed_or_err, spec_ascii_trimmed, spec_validate_identifier, validate_identifier};
use crate::member::{dtype::Dtype, sizing::Sizing};
use crate::member::type_specification::{spec_typespec_from, TypeSpecification};
use crate::text::{chars_of, decimal, find_char, first_index, push_decimal, push_str};
use crate::member::dtype::{dtype_name, push_dtype_name};

verus! {

#[derive(Debug, Clone, PartialEq)]
pub struct MemberSpecification {
    pub(crate) identifier: String,
    pub(crate) sizing: Sizing,
    pub(crate) dtype: Dtype,
}

/// What a member specification stands for.
pub struct MemberV {
    pub identifier: Seq<char>,
    pub sizing: Sizing,
    pub dtype: Dtype,
}

impl View for MemberSpecification {
    type V = MemberV;

    closed spec fn view(&self) -> MemberV {
        MemberV { identifier: self.identifier@, sizing: self.sizing, dtype: self.dtype }
    }
}

/// What `MemberSpecification::from` gives of a text `identifier: typespec`: the identifier before
/// the first colon, without its surrounding white space, and the type specification after it.
pub open spec fn spec_member_from(s: Seq<char>) -> Result<MemberV, ElucidatorErrorV> {
    match spec_ascii_trimmed(s) {
        Err(e) => Err(e),
        Ok(t) => match first_index(t, ':') {
            None => Err(
                ElucidatorErrorV::Parsing { offender: s, reason: ParsingFailureV::MissingIdSpecDelimiter },
            ),
            Some(ci) => match spec_validate_identifier(t.subrange(0, ci)) {
                Err(e) => Err(e),
                Ok(id) => match spec_typespec_from(t.subrange(ci + 1, t.len() as int)) {
                    Err(e) => Err(e),
                    Ok(ts) => Ok(MemberV { identifier: id, sizing: ts.sizing, dtype: ts.dtype }),
                },
            },
        },
    }
}

/// How a sizing is written after the data type: nothing, `[n]` or `[]`.
pub open spec fn sizing_text(sizing: Sizing) -> Seq<char> {
    match sizing {
        Sizing::Singleton => Seq::empty(),
        Sizing::Dynamic => "[]"@,
        Sizing::Fixed(n) => "["@ + decimal(n as nat) + "]"@,
    }
}

/// How a member is written: `identifier: dtype` followed by its sizing.
pub open spec fn member_text(m: MemberV) -> Seq<char> {
    m.identifier + ": "@ + dtype_name(m.dtype) + sizing_text(m.sizing)
}

/// The views of a list of members.
pub open spec fn member_spec_views(ms: Seq<MemberSpecification>) -> Seq<MemberV> {
    Seq::new(ms.len(), |i: int| ms[i]@)
}

/// A string is never an array.
pub open spec fn legal_sizing(sizing: Sizing, dtype: Dtype) -> bool {
    dtype == Dtype::Str ==> sizing == Sizing::Singleton
}

impl MemberSpecification {
    /// Makes a member from its parts; a string member must be a singleton.
    pub fn from_parts(identifier: &str, sizing: &Sizing, dtype: &Dtype) -> (m: Self)
        requires
            legal_sizing(*sizing, *dtype),
        ensures
            m@ == (MemberV { identifier: identifier@, sizing: *sizing, dtype: *dtype }),
    {
        MemberSpecification { identifier: identifier.to_owned(), sizing: *sizing, dtype: *dtype }
    }

    /// Parses a member specification `identifier: typespec`.
    pub fn from(s: &str) -> (r: Result<MemberSpecification, ElucidatorError>)
        ensures
            r matches Ok(m) ==> spec_member_from(s@) == Ok::<MemberV, ElucidatorErrorV>(m@),
            r matches Err(e) ==> spec_member_from(s@) == Err::<MemberV, ElucidatorErrorV>(e@),
    {
        let ss = ascii_trimmed_or_err(s)?;
        let v = chars_of(ss);
        let n = v.len();
        proof {
            assert(v@.subrange(0, n as int) =~= v@);
        }
        match find_char(v.as_slice(), ':', 0, n) {
            Some(ci) => {
                let ident = ss.substring_char(0, ci);
                let typespec = ss.substring_char(ci + 1, n);
                let id = validate_identifier(ident)?;
                let ts = TypeSpecification::from(typespec)?;
                Ok(MemberSpecification { identifier: id.to_owned(), sizing: ts.sizing, dtype: ts.dtype })
            },
            None => Err(
                ElucidatorError::Parsing {
                    offender: s.to_owned(),
                    reason: ParsingFailure::MissingIdSpecDelimiter,
                },
            ),
        }
    }

    /// The member as text, `identifier: dtype` followed by `[n]` or `[]` for arrays.
    pub fn to_display_string(&self) -> (s: String)
        ensures
            s@ == member_text(self@),
    {
        let mut s = String::new();
        push_str(&mut s, self.identifier.as_str());
        push_str(&mut s, ": ");
        push_dtype_name(&mut s, self.dtype);
        match self.sizing {
            Sizing::Singleton => {},
            Sizing::Dynamic => {
                push_str(&mut s, "[]");
            },
            Sizing::Fixed(n) => {
                push_str(&mut s, "[");
                push_decimal(&mut s, n);
                push_str(&mut s, "]");
            },
        }
        s
    }

    /// A copy of this member.
    pub fn duplicate(&self) -> (m: Self)
        ensures
            m@ == self@,
    {
        MemberSpecification {
            identifier: self.identifier.as_str().to_owned(),
            sizing: self.sizing,
            dtype: self.dtype,
        }
    }

    /// Whether two members have the same identifier.
    pub fn same_identifier(&self, other: &MemberSpecification) -> (b: bool)
        ensures
            b == (self@.identifier == other@.identifier),
    {
        self.identifier == other.identifier
    }

    pub fn identifier(&self) -> (s: &str)
        ensures
            s@ == self@.identifier,
    {
        self.identifier.as_str()
    }

    pub fn sizing(&self) -> (s: Sizing)
        ensures
            s == self@.sizing,
    {
        self.sizing
    }

    pub fn dtype(&self) -> (d: Dtype)
        ensures
            d == self@.dtype,
    {
        self.dtype
    }
}

} // verus!
