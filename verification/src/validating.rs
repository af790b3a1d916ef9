//! The second pass over a designation specification: checking that the tokens found by
//! `parsing` form legal members, and turning them into member specifications.
use vstd::prelude::*;
use vstd::string::*;
use crate::error::{
    internal_views, merged_internal, InternalError, InternalErrorV, SpecificationFailure,
    SpecificationFailureV,
};
use crate::helper::{insert_sorted, insert_sorted_exec};
use crate::member::dtype::{dtype_from_name, dtype_of_name, Dtype};
use crate::member::member_specification::{legal_sizing, member_spec_views, MemberSpecification, MemberV};
use crate::member::sizing::Sizing;
use crate::parsing::{
    all_member_errors, extend_errors, member_views, members_from, spec_memberspec, spec_metadataspec,
    MemberSpecParserOutput, MemberSpecV, MetadataSpecParserOutput, MetadataSpecV,
};
use crate::text::{
    alphabetic, all_white, ascii_alphanumeric, chars_of, is_alphabetic, is_ascii_alphanumeric,
    parse_u64, parse_u64_chars, trim, trim_bounds,
};
use crate::token::{DtypeToken, IdentifierToken, SizingToken, TokenClone, TokenV};

verus! {

/// Characters allowed in an identifier: ASCII letters and digits, and the underscore.
pub open spec fn identifier_char(c: char) -> bool {
    ascii_alphanumeric(c) || c == '_'
}

pub fn valid_identifier_char(c: char) -> (b: bool)
    ensures
        b == identifier_char(c),
{
    is_ascii_alphanumeric(c) || c == '_'
}

/// The characters of `s` not allowed in an identifier, each once, in the order of their code
/// points.
pub open spec fn sorted_illegal_ident(s: Seq<char>) -> Seq<char>
    decreases s.len(),
{
    if s.len() == 0 {
        Seq::empty()
    } else if !identifier_char(s.last()) {
        insert_sorted(sorted_illegal_ident(s.drop_last()), s.last())
    } else {
        sorted_illegal_ident(s.drop_last())
    }
}

/// The faults of an identifier token, in the order they are reported: an empty identifier or a
/// first character that is not a letter, then the characters not allowed.
pub open spec fn identifier_errors(t: TokenV) -> Seq<InternalErrorV> {
    let first = if t.data.len() == 0 {
        seq![
            InternalErrorV::IllegalSpecification {
                offender: t,
                reason: SpecificationFailureV::ZeroLengthIdentifier,
            },
        ]
    } else if !alphabetic(t.data[0]) {
        seq![
            InternalErrorV::IllegalSpecification {
                offender: t,
                reason: SpecificationFailureV::IdentifierStartsNonAlphabetical,
            },
        ]
    } else {
        Seq::empty()
    };
    let ill = sorted_illegal_ident(t.data);
    first + if ill.len() > 0 {
        seq![
            InternalErrorV::IllegalSpecification {
                offender: t,
                reason: SpecificationFailureV::IllegalCharacters(ill),
            },
        ]
    } else {
        Seq::empty()
    }
}

/// What `validate_identifier` gives of a token: its text, or its faults merged.
pub open spec fn spec_identifier_token(t: TokenV) -> Result<Seq<char>, InternalErrorV> {
    let es = identifier_errors(t);
    if es.len() == 0 {
        Ok(t.data)
    } else {
        Err(merged_internal(es))
    }
}

/// What `validate_dtype` gives of a token: the data type its trimmed text names.
pub open spec fn spec_dtype_token(t: TokenV) -> Result<Dtype, InternalErrorV> {
    match dtype_of_name(trim(t.data)) {
        Some(d) => Ok(d),
        None => Err(
            InternalErrorV::IllegalSpecification {
                offender: t,
                reason: SpecificationFailureV::IllegalDataType,
            },
        ),
    }
}

/// What `validate_sizing` gives of a token: blank is dynamic, a positive `u64` is fixed.
pub open spec fn spec_sizing_token(t: TokenV) -> Result<Sizing, InternalErrorV> {
    if all_white(t.data) {
        Ok(Sizing::Dynamic)
    } else {
        match parse_u64(t.data) {
            Some(v) => if v != 0 {
                Ok(Sizing::Fixed(v))
            } else {
                Err(
                    InternalErrorV::IllegalSpecification {
                        offender: t,
                        reason: SpecificationFailureV::IllegalArraySizing,
                    },
                )
            },
            None => Err(
                InternalErrorV::IllegalSpecification {
                    offender: t,
                    reason: SpecificationFailureV::IllegalArraySizing,
                },
            ),
        }
    }
}

pub open spec fn err_of<T>(r: Option<Result<T, InternalErrorV>>) -> Seq<InternalErrorV> {
    match r {
        Some(Err(e)) => seq![e],
        _ => Seq::empty(),
    }
}

pub open spec fn member_identifier_result(m: MemberSpecV) -> Option<Result<Seq<char>, InternalErrorV>> {
    match m.identifier {
        Some(t) => Some(spec_identifier_token(t)),
        None => None,
    }
}

pub open spec fn member_dtype_result(m: MemberSpecV) -> Option<Result<Dtype, InternalErrorV>> {
    match m.typespec {
        Some(ts) => match ts.dtype {
            Some(t) => Some(spec_dtype_token(t)),
            None => None,
        },
        None => None,
    }
}

pub open spec fn member_sizing_result(m: MemberSpecV) -> Option<Result<Sizing, InternalErrorV>> {
    match m.typespec {
        Some(ts) => match ts.sizing {
            Some(t) => Some(spec_sizing_token(t)),
            None => if ts.is_singleton {
                Some(Ok(Sizing::Singleton))
            } else {
                None
            },
        },
        None => None,
    }
}

/// The parsing errors of a member followed by the faults of its tokens.
pub open spec fn member_errors(m: MemberSpecV) -> Seq<InternalErrorV> {
    m.errors + err_of(member_identifier_result(m)) + err_of(member_dtype_result(m)) + err_of(
        member_sizing_result(m),
    )
}

/// A parser output whose three tokens are all there carries no parsing error (this holds of what
/// `get_memberspec` gives).
pub open spec fn member_output_consistent(m: MemberSpecV) -> bool {
    (m.identifier is Some && member_dtype_result(m) is Some && member_sizing_result(m) is Some)
        ==> m.errors.len() == 0
}

/// What `validate_memberspec` gives: the member, when its three tokens are legal and a string
/// is not an array; else all the errors, merged.
pub open spec fn spec_validate_memberspec(m: MemberSpecV) -> Result<MemberV, InternalErrorV> {
    let errors = member_errors(m);
    match (member_identifier_result(m), member_dtype_result(m), member_sizing_result(m)) {
        (Some(Ok(i)), Some(Ok(d)), Some(Ok(s))) => if legal_sizing(s, d) {
            Ok(MemberV { identifier: i, sizing: s, dtype: d })
        } else {
            Err(
                merged_internal(
                    errors.push(
                        InternalErrorV::IllegalSpecification {
                            offender: m.identifier.unwrap(),
                            reason: SpecificationFailureV::IllegalArraySizing,
                        },
                    ),
                ),
            )
        },
        _ => Err(merged_internal(errors)),
    }
}

/// The members that validate, and the errors met, going through the member outputs in order: a
/// member that validates but repeats an earlier identifier is reported at its identifier.
pub open spec fn validate_all(ms: Seq<MemberSpecV>) -> (Seq<MemberV>, Seq<InternalErrorV>)
    decreases ms.len(),
{
    if ms.len() == 0 {
        (Seq::empty(), Seq::empty())
    } else {
        let (oks, errs) = validate_all(ms.drop_last());
        match spec_validate_memberspec(ms.last()) {
            Err(e) => (oks, errs.push(e)),
            Ok(m) => if exists|k: int| 0 <= k < oks.len() && (#[trigger] oks[k]).identifier == m.identifier {
                (
                    oks.push(m),
                    errs.push(
                        InternalErrorV::IllegalSpecification {
                            offender: ms.last().identifier.unwrap(),
                            reason: SpecificationFailureV::RepeatedIdentifier,
                        },
                    ),
                )
            } else {
                (oks.push(m), errs)
            },
        }
    }
}

/// What `validate_metadataspec` gives: the members when nothing went wrong, else the errors
/// merged.
pub open spec fn spec_validate_metadataspec(p: MetadataSpecV) -> Result<Seq<MemberV>, InternalErrorV> {
    let (oks, errs) = validate_all(p.member_outputs);
    if errs.len() == 0 {
        Ok(oks)
    } else {
        Err(merged_internal(errs))
    }
}

fn collect_sorted_illegal(v: &Vec<char>) -> (r: Vec<char>)
    ensures
        r@ == sorted_illegal_ident(v@),
{
    let mut r: Vec<char> = Vec::new();
    let mut i: usize = 0;
    while i < v.len()
        invariant
            i <= v@.len(),
            r@ == sorted_illegal_ident(v@.subrange(0, i as int)),
        decreases v.len() - i,
    {
        let ghost s = v@.subrange(0, i + 1);
        assert(s.drop_last() =~= v@.subrange(0, i as int));
        if !valid_identifier_char(v[i]) {
            r = insert_sorted_exec(&r, v[i]);
        }
        i = i + 1;
    }
    assert(v@.subrange(0, v@.len() as int) =~= v@);
    r
}

/// Checks an identifier token: it must start with a letter and hold only ASCII letters, digits
/// and underscores.
pub fn validate_identifier(itoken: &IdentifierToken) -> (r: Result<String, InternalError>)
    ensures
        r matches Ok(s) ==> spec_identifier_token(itoken.data@) == Ok::<Seq<char>, InternalErrorV>(s@),
        r matches Err(e) ==> spec_identifier_token(itoken.data@) == Err::<Seq<char>, InternalErrorV>(e@),
{
    let mut errors: Vec<InternalError> = Vec::new();
    let identifier = itoken.data.data;
    let v = chars_of(identifier);
    if v.len() == 0 {
        errors.push(
            InternalError::IllegalSpecification {
                offender: TokenClone::from_token_data(&itoken.data),
                reason: SpecificationFailure::ZeroLengthIdentifier,
            },
        );
    } else if !is_alphabetic(v[0]) {
        errors.push(
            InternalError::IllegalSpecification {
                offender: TokenClone::from_token_data(&itoken.data),
                reason: SpecificationFailure::IdentifierStartsNonAlphabetical,
            },
        );
    }
    let illegal_chars = collect_sorted_illegal(&v);
    if illegal_chars.len() > 0 {
        errors.push(
            InternalError::IllegalSpecification {
                offender: TokenClone::from_token_data(&itoken.data),
                reason: SpecificationFailure::IllegalCharacters(illegal_chars),
            },
        );
    }
    assert(internal_views(errors@) =~= identifier_errors(itoken.data@));
    if errors.len() == 0 {
        Ok(identifier.to_owned())
    } else {
        Err(InternalError::merge(errors.as_slice()))
    }
}

/// Checks a data type token: its trimmed text must name a data type.
pub fn validate_dtype(dtoken: &DtypeToken) -> (r: Result<Dtype, InternalError>)
    ensures
        r matches Ok(d) ==> spec_dtype_token(dtoken.data@) == Ok::<Dtype, InternalErrorV>(d),
        r matches Err(e) ==> spec_dtype_token(dtoken.data@) == Err::<Dtype, InternalErrorV>(e@),
{
    let v = chars_of(dtoken.data.data);
    let (a, b) = trim_bounds(v.as_slice());
    let t = chars_of(dtoken.data.data.substring_char(a, b));
    match dtype_from_name(t.as_slice()) {
        Some(d) => Ok(d),
        None => Err(
            InternalError::IllegalSpecification {
                offender: TokenClone::from_token_data(&dtoken.data),
                reason: SpecificationFailure::IllegalDataType,
            },
        ),
    }
}

/// Checks a sizing token: blank means dynamic; otherwise it must read as a positive `u64`.
pub fn validate_sizing(stoken: &SizingToken) -> (r: Result<Sizing, InternalError>)
    ensures
        r matches Ok(s) ==> spec_sizing_token(stoken.data@) == Ok::<Sizing, InternalErrorV>(s),
        r matches Err(e) ==> spec_sizing_token(stoken.data@) == Err::<Sizing, InternalErrorV>(e@),
{
    let v = chars_of(stoken.data.data);
    let (a, b) = trim_bounds(v.as_slice());
    if a == b {
        return Ok(Sizing::Dynamic);
    }
    let n = v.len();
    proof {
        assert(v@.subrange(0, n as int) =~= v@);
    }
    match parse_u64_chars(v.as_slice(), 0, n) {
        Some(value) => {
            if value != 0 {
                Ok(Sizing::Fixed(value))
            } else {
                Err(
                    InternalError::IllegalSpecification {
                        offender: TokenClone::from_token_data(&stoken.data),
                        reason: SpecificationFailure::IllegalArraySizing,
                    },
                )
            }
        },
        None => Err(
            InternalError::IllegalSpecification {
                offender: TokenClone::from_token_data(&stoken.data),
                reason: SpecificationFailure::IllegalArraySizing,
            },
        ),
    }
}

/// Checks the tokens of one member specification and makes the member.
pub fn validate_memberspec(mpo: &MemberSpecParserOutput) -> (r: Result<MemberSpecification, InternalError>)
    requires
        member_output_consistent(mpo@),
    ensures
        r matches Ok(m) ==> spec_validate_memberspec(mpo@) == Ok::<MemberV, InternalErrorV>(m@),
        r matches Err(e) ==> spec_validate_memberspec(mpo@) == Err::<MemberV, InternalErrorV>(e@),
{
    let mut errors: Vec<InternalError> = Vec::new();
    extend_errors(&mut errors, &mpo.errors);
    assert(internal_views(errors@) =~= mpo@.errors);
    let ident: Option<String> = match &mpo.identifier {
        Some(t) => match validate_identifier(t) {
            Ok(o) => Some(o),
            Err(e) => {
                errors.push(e);
                None
            },
        },
        None => None,
    };
    assert(internal_views(errors@) =~= mpo@.errors + err_of(member_identifier_result(mpo@)));
    let dtype: Option<Dtype> = match &mpo.typespec {
        Some(ts) => match &ts.dtype {
            Some(t) => match validate_dtype(t) {
                Ok(o) => Some(o),
                Err(e) => {
                    errors.push(e);
                    None
                },
            },
            None => None,
        },
        None => None,
    };
    assert(internal_views(errors@) =~= mpo@.errors + err_of(member_identifier_result(mpo@)) + err_of(
        member_dtype_result(mpo@),
    ));
    let sizing: Option<Sizing> = match &mpo.typespec {
        Some(ts) => match &ts.sizing {
            Some(t) => match validate_sizing(t) {
                Ok(o) => Some(o),
                Err(e) => {
                    errors.push(e);
                    None
                },
            },
            None => if ts.is_singleton {
                Some(Sizing::Singleton)
            } else {
                None
            },
        },
        None => None,
    };
    assert(internal_views(errors@) =~= member_errors(mpo@));
    match (ident, dtype, sizing) {
        (Some(i), Some(d), Some(s)) => {
            if d == Dtype::Str && s != Sizing::Singleton {
                match &mpo.identifier {
                    Some(t) => {
                        let ghost before = internal_views(errors@);
                        errors.push(
                            InternalError::IllegalSpecification {
                                offender: TokenClone::from_token_data(&t.data),
                                reason: SpecificationFailure::IllegalArraySizing,
                            },
                        );
                        assert(internal_views(errors@) =~= before.push(
                            InternalErrorV::IllegalSpecification {
                                offender: mpo@.identifier.unwrap(),
                                reason: SpecificationFailureV::IllegalArraySizing,
                            },
                        ));
                    },
                    None => {
                        assert(false);
                    },
                }
                Err(InternalError::merge(errors.as_slice()))
            } else {
                Ok(MemberSpecification::from_parts(i.as_str(), &s, &d))
            }
        },
        _ => Err(InternalError::merge(errors.as_slice())),
    }
}

/// Checks every member of a parsed specification; identifiers must not repeat.
pub fn validate_metadataspec(mso: &MetadataSpecParserOutput) -> (r: Result<Vec<MemberSpecification>, InternalError>)
    requires
        forall|k: int|
            0 <= k < mso@.member_outputs.len() ==> member_output_consistent(
                #[trigger] mso@.member_outputs[k],
            ),
    ensures
        r matches Ok(ms) ==> spec_validate_metadataspec(mso@) == Ok::<Seq<MemberV>, InternalErrorV>(
            member_spec_views(ms@),
        ),
        r matches Err(e) ==> spec_validate_metadataspec(mso@) == Err::<Seq<MemberV>, InternalErrorV>(e@),
{
    let ghost outs = mso@.member_outputs;
    let mut members: Vec<MemberSpecification> = Vec::new();
    let mut errors: Vec<InternalError> = Vec::new();
    let mut i: usize = 0;
    while i < mso.member_outputs.len()
        invariant
            i <= mso.member_outputs@.len(),
            outs == member_views(mso.member_outputs@),
            forall|k: int| 0 <= k < outs.len() ==> member_output_consistent(#[trigger] outs[k]),
            validate_all(outs.subrange(0, i as int)) == (member_spec_views(members@), internal_views(errors@)),
        decreases mso.member_outputs.len() - i,
    {
        let out = &mso.member_outputs[i];
        assert(outs[i as int] == out@);
        let ghost part = outs.subrange(0, i + 1);
        assert(part.drop_last() =~= outs.subrange(0, i as int));
        assert(part.last() == out@);
        let ghost ms_before = member_spec_views(members@);
        let ghost es_before = internal_views(errors@);
        match validate_memberspec(out) {
            Err(e) => {
                errors.push(e);
                assert(internal_views(errors@) =~= es_before.push(e@));
            },
            Ok(m) => {
                let mut repeated = false;
                let mut k: usize = 0;
                while k < members.len()
                    invariant
                        k <= members@.len(),
                        ms_before == member_spec_views(members@),
                        repeated <==> exists|j: int|
                            0 <= j < k && (#[trigger] ms_before[j]).identifier == m@.identifier,
                    decreases members.len() - k,
                {
                    if members[k].same_identifier(&m) {
                        repeated = true;
                    }
                    assert(ms_before[k as int] == members@[k as int]@);
                    k = k + 1;
                }
                if repeated {
                    match &out.identifier {
                        Some(t) => {
                            errors.push(
                                InternalError::IllegalSpecification {
                                    offender: TokenClone::from_token_data(&t.data),
                                    reason: SpecificationFailure::RepeatedIdentifier,
                                },
                            );
                            assert(internal_views(errors@) =~= es_before.push(
                                InternalErrorV::IllegalSpecification {
                                    offender: out@.identifier.unwrap(),
                                    reason: SpecificationFailureV::RepeatedIdentifier,
                                },
                            ));
                        },
                        None => {
                            assert(false);
                        },
                    }
                } else {
                    assert(internal_views(errors@) =~= es_before);
                }
                members.push(m);
                assert(member_spec_views(members@) =~= ms_before.push(m@));
            },
        }
        i = i + 1;
    }
    assert(outs.subrange(0, outs.len() as int) =~= outs);
    if errors.len() == 0 {
        Ok(members)
    } else {
        Err(InternalError::merge(errors.as_slice()))
    }
}

/// What the parser gives of a member always carries no parsing error once its identifier, data
/// type and sizing are all there.
pub proof fn lemma_parsed_member_consistent(data: Seq<char>, start: int)
    ensures
        member_output_consistent(spec_memberspec(data, start)),
{
}

/// Every member the parser gives of a specification is consistent in that sense.
pub proof fn lemma_parsed_members_consistent(s: Seq<char>, from: int)
    ensures
        forall|k: int|
            0 <= k < members_from(s, from).len() ==> member_output_consistent(
                #[trigger] members_from(s, from)[k],
            ),
    decreases s.len() - from,
{
    if 0 <= from <= s.len() {
        let rest = s.subrange(from, s.len() as int);
        crate::text::lemma_first_index_props(rest, ',');
        match crate::text::first_index(rest, ',') {
            None => {
                lemma_parsed_member_consistent(rest, crate::parsing::section_start(s, from));
            },
            Some(i) => {
                lemma_parsed_member_consistent(rest.subrange(0, i), crate::parsing::section_start(s, from));
                lemma_parsed_members_consistent(s, from + i + 1);
                let head = seq![spec_memberspec(rest.subrange(0, i), crate::parsing::section_start(s, from))];
                assert(members_from(s, from) == head + members_from(s, from + i + 1));
                assert forall|k: int| 0 <= k < members_from(s, from).len() implies member_output_consistent(
                    #[trigger] members_from(s, from)[k],
                ) by {
                    if k > 0 {
                        assert(members_from(s, from)[k] == members_from(s, from + i + 1)[k - 1]);
                    }
                }
            },
        }
    }
}

pub proof fn lemma_parsed_spec_consistent(s: Seq<char>)
    ensures
        forall|k: int|
            0 <= k < spec_metadataspec(s).member_outputs.len() ==> member_output_consistent(
                #[trigger] spec_metadataspec(s).member_outputs[k],
            ),
{
    lemma_parsed_members_consistent(s, 0);
}

proof fn lemma_insert_sorted_contains(r: Seq<char>, c: char)
    ensures
        insert_sorted(r, c).len() >= 1,
{
    if !r.contains(c) {
        assert((crate::helper::chars_below(r, c) + seq![c] + crate::helper::chars_above(r, c)).len() >= 1);
    } else {
        assert(r.len() >= 1);
    }
}

/// When no character of `s` is disallowed, every character is a letter, digit or underscore.
pub proof fn lemma_no_illegal_ident_chars(s: Seq<char>)
    requires
        sorted_illegal_ident(s).len() == 0,
    ensures
        forall|i: int| 0 <= i < s.len() ==> identifier_char(#[trigger] s[i]),
    decreases s.len(),
{
    if s.len() > 0 {
        if !identifier_char(s.last()) {
            lemma_insert_sorted_contains(sorted_illegal_ident(s.drop_last()), s.last());
        }
        lemma_no_illegal_ident_chars(s.drop_last());
        assert forall|i: int| 0 <= i < s.len() implies identifier_char(#[trigger] s[i]) by {
            if i < s.len() - 1 {
                assert(s[i] == s.drop_last()[i]);
            }
        }
    }
}

/// Law: an identifier that validates is non-empty, starts with a letter, and holds only ASCII
/// letters, digits and underscores.
pub proof fn lemma_valid_identifier_shape(t: TokenV)
    requires
        spec_identifier_token(t) is Ok,
    ensures
        t.data.len() > 0,
        alphabetic(t.data[0]),
        forall|i: int| 0 <= i < t.data.len() ==> identifier_char(#[trigger] t.data[i]),
{
    let ill = sorted_illegal_ident(t.data);
    if ill.len() > 0 {
        assert(identifier_errors(t).len() > 0);
    }
    lemma_no_illegal_ident_chars(t.data);
}

/// Law: the members of a specification that validates have distinct identifiers.
pub proof fn lemma_validated_identifiers_distinct(ms: Seq<MemberSpecV>)
    requires
        validate_all(ms).1.len() == 0,
    ensures
        forall|i: int, j: int|
            0 <= i < j < validate_all(ms).0.len() ==> (#[trigger] validate_all(ms).0[i]).identifier
                != (#[trigger] validate_all(ms).0[j]).identifier,
    decreases ms.len(),
{
    if ms.len() > 0 {
        let (oks, errs) = validate_all(ms.drop_last());
        lemma_validate_all_errors_grow(ms);
        lemma_validated_identifiers_distinct(ms.drop_last());
        match spec_validate_memberspec(ms.last()) {
            Ok(m) => {
                let oks2 = validate_all(ms).0;
                assert(oks2 == oks.push(m));
                assert(!exists|k: int| 0 <= k < oks.len() && (#[trigger] oks[k]).identifier == m.identifier);
                assert forall|i: int, j: int|
                    0 <= i < j < oks2.len() implies (#[trigger] oks2[i]).identifier != (#[trigger] oks2[j]).identifier by {
                    if j < oks.len() {
                        assert(oks2[i] == oks[i] && oks2[j] == oks[j]);
                    } else {
                        assert(oks2[i] == oks[i]);
                        assert(oks2[j] == m);
                    }
                }
            },
            Err(_) => {},
        }
    }
}

proof fn lemma_validate_all_errors_grow(ms: Seq<MemberSpecV>)
    requires
        ms.len() > 0,
    ensures
        validate_all(ms).1.len() >= validate_all(ms.drop_last()).1.len(),
{
}

/// Law: no sizing token is read as an array of zero elements; a blank one is a dynamic array.
pub proof fn lemma_sizing_never_zero(t: TokenV)
    ensures
        spec_sizing_token(t) != Ok::<Sizing, InternalErrorV>(Sizing::Fixed(0)),
        all_white(t.data) ==> spec_sizing_token(t) == Ok::<Sizing, InternalErrorV>(Sizing::Dynamic),
{
}

/// Law: no member that validates is an array of zero elements.
pub proof fn lemma_validated_no_empty_arrays(ms: Seq<MemberSpecV>)
    ensures
        forall|k: int| 0 <= k < validate_all(ms).0.len() ==> (#[trigger] validate_all(ms).0[k]).sizing != Sizing::Fixed(0),
    decreases ms.len(),
{
    if ms.len() > 0 {
        lemma_validated_no_empty_arrays(ms.drop_last());
        let (oks, errs) = validate_all(ms.drop_last());
        let m = ms.last();
        match member_sizing_result(m) {
            Some(Ok(_)) => match m.typespec {
                Some(ts) => match ts.sizing {
                    Some(t) => lemma_sizing_never_zero(t),
                    None => {},
                },
                None => {},
            },
            _ => {},
        }
        match spec_validate_memberspec(m) {
            Ok(v) => {
                let oks2 = validate_all(ms).0;
                assert(oks2 == oks.push(v));
                assert forall|k: int| 0 <= k < oks2.len() implies (#[trigger] oks2[k]).sizing != Sizing::Fixed(0) by {
                    if k < oks.len() {
                        assert(oks2[k] == oks[k]);
                    }
                }
            },
            Err(_) => {},
        }
    }
}

} // verus!
