//! Metadata specifications: a designation with its ordered members, checked as a whole.
use vstd::prelude::*;
use vstd::string::*;
use crate::error::{
    error_list_view, lemma_error_list_view, ElucidatorError, ElucidatorErrorV, ParsingFailure,
    ParsingFailureV, SpecificationFailure, SpecificationFailureV,
};
use crate::helper::{ascii_trimmed_or_err, spec_ascii_trimmed};
use crate::member::member_specification::{
    member_spec_views, spec_member_from, MemberSpecification, MemberV,
};
use crate::text::{
    alphabetic, chars_of, find_char, first_index, is_alphabetic, lemma_first_index_props, split_on,
    split_str, str_views, trim, trim_str,
};
use crate::validating::{sorted_illegal_ident, valid_identifier_char};
use crate::helper::insert_sorted_exec;

verus! {

/// Representation of a Metadata Specification. The designation is the identifier associated with
/// an ordered set of member specifications. This represents only the specification; an
/// interpreter must be used to extract values from data buffers.
#[derive(Debug, PartialEq)]
pub struct MetadataSpecification {
    pub designation: String,
    pub members: Vec<MemberSpecification>,
}

/// What a metadata specification stands for.
#[verifier::ext_equal]
pub struct MetadataV {
    pub designation: Seq<char>,
    pub members: Seq<MemberV>,
}

impl View for MetadataSpecification {
    type V = MetadataV;

    open spec fn view(&self) -> MetadataV {
        MetadataV { designation: self.designation@, members: member_spec_views(self.members@) }
    }
}

/// The trimmed comma-separated sections of a specification text.
pub open spec fn sections(s: Seq<char>) -> Seq<Seq<char>> {
    split_on(s, ',').map_values(|x: Seq<char>| trim(x))
}

/// A text with no comma and nothing but white space declares no members.
pub open spec fn no_members(secs: Seq<Seq<char>>) -> bool {
    secs.len() == 1 && secs[0].len() == 0
}

pub open spec fn result_view(r: Result<MemberV, ElucidatorErrorV>) -> Result<MemberV, ElucidatorErrorV> {
    r
}

/// What `parse_spec_text` gives: each section parsed as a member specification.
pub open spec fn spec_parse_spec_text(s: Seq<char>) -> Seq<Result<MemberV, ElucidatorErrorV>> {
    let secs = sections(s);
    if no_members(secs) {
        Seq::empty()
    } else {
        secs.map_values(|x: Seq<char>| spec_member_from(x))
    }
}

pub open spec fn member_results_view(v: Seq<Result<MemberSpecification, ElucidatorError>>) -> Seq<
    Result<MemberV, ElucidatorErrorV>,
> {
    Seq::new(
        v.len(),
        |i: int|
            match v[i] {
                Ok(m) => Ok(m@),
                Err(e) => Err(e@),
            },
    )
}

/// How a member's error is reported for the whole text: it names the text; a data type, sizing
/// or first character that cannot stand becomes an illegal specification, and an empty section
/// is an unexpected end of the expression.
pub open spec fn member_failure(e: ElucidatorErrorV, text: Seq<char>) -> ElucidatorErrorV {
    match e {
        ElucidatorErrorV::Parsing { offender, reason } => match reason {
            ParsingFailureV::IllegalDataType => ElucidatorErrorV::IllegalSpecification {
                offender: text,
                reason: SpecificationFailureV::IllegalDataType,
            },
            ParsingFailureV::IllegalArraySizing => ElucidatorErrorV::IllegalSpecification {
                offender: text,
                reason: SpecificationFailureV::IllegalArraySizing,
            },
            ParsingFailureV::IdentifierStartsNonAlphabetical => ElucidatorErrorV::IllegalSpecification {
                offender: text,
                reason: SpecificationFailureV::IdentifierStartsNonAlphabetical,
            },
            ParsingFailureV::MissingIdSpecDelimiter => if offender.len() == 0 {
                ElucidatorErrorV::Parsing {
                    offender: text,
                    reason: ParsingFailureV::UnexpectedEndOfExpression,
                }
            } else {
                ElucidatorErrorV::Parsing {
                    offender: text,
                    reason: ParsingFailureV::MissingIdSpecDelimiter,
                }
            },
            _ => ElucidatorErrorV::Parsing { offender: text, reason },
        },
        _ => e,
    }
}

/// The name a section gives its member: the trimmed text before its first colon.
pub open spec fn section_name(sec: Seq<char>) -> Option<Seq<char>> {
    match first_index(sec, ':') {
        Some(ci) => Some(trim(sec.subrange(0, ci))),
        None => None,
    }
}

/// How many of `names` are `n`.
pub open spec fn count_name(names: Seq<Option<Seq<char>>>, n: Seq<char>) -> nat
    decreases names.len(),
{
    if names.len() == 0 {
        0
    } else {
        count_name(names.drop_last(), n) + if names.last() == Some(n) {
            1nat
        } else {
            0nat
        }
    }
}

pub open spec fn section_names(secs: Seq<Seq<char>>) -> Seq<Option<Seq<char>>> {
    secs.map_values(|x: Seq<char>| section_name(x))
}

/// Going through the sections in order: the members that parse, the errors of those that do
/// not, and a repetition error for each non-empty name at its second occurrence.
pub open spec fn member_report(secs: Seq<Seq<char>>, text: Seq<char>) -> (
    Seq<MemberV>,
    Seq<ElucidatorErrorV>,
    Seq<ElucidatorErrorV>,
)
    decreases secs.len(),
{
    if secs.len() == 0 {
        (Seq::empty(), Seq::empty(), Seq::empty())
    } else {
        let (oks, merrs, rerrs) = member_report(secs.drop_last(), text);
        let sec = secs.last();
        let (oks2, merrs2) = match spec_member_from(sec) {
            Ok(m) => (oks.push(m), merrs),
            Err(e) => (oks, merrs.push(member_failure(e, text))),
        };
        let rerrs2 = match section_name(sec) {
            Some(n) => if n.len() > 0 && count_name(section_names(secs.drop_last()), n) == 1 {
                rerrs.push(
                    ElucidatorErrorV::IllegalSpecification {
                        offender: n,
                        reason: SpecificationFailureV::RepeatedIdentifier,
                    },
                )
            } else {
                rerrs
            },
            None => rerrs,
        };
        (oks2, merrs2, rerrs2)
    }
}

/// One error stands alone; several form `MultipleFailures`.
pub open spec fn combined(errs: Seq<ElucidatorErrorV>) -> ElucidatorErrorV {
    if errs.len() == 1 {
        errs[0]
    } else {
        ElucidatorErrorV::MultipleFailures(errs)
    }
}

/// What `validate_members` gives: all members, when every section parses and no identifier
/// repeats; else the member errors followed by the repetitions.
pub open spec fn spec_validate_members(text: Seq<char>) -> Result<Seq<MemberV>, ElucidatorErrorV> {
    let secs = sections(text);
    if no_members(secs) {
        Ok(Seq::empty())
    } else {
        let (oks, merrs, rerrs) = member_report(secs, text);
        let errs = merrs + rerrs;
        if errs.len() == 0 {
            Ok(oks)
        } else {
            Err(combined(errs))
        }
    }
}

/// What `parse_designation` gives: the trimmed designation, when it is ASCII and made of letters,
/// digits and underscores.
pub open spec fn spec_parse_designation(d: Seq<char>) -> Result<Seq<char>, ElucidatorErrorV> {
    match spec_ascii_trimmed(d) {
        Err(e) => Err(e),
        Ok(t) => if sorted_illegal_ident(t).len() == 0 {
            Ok(t)
        } else {
            Err(
                ElucidatorErrorV::Parsing {
                    offender: d,
                    reason: ParsingFailureV::IllegalCharacters(sorted_illegal_ident(t)),
                },
            )
        },
    }
}

/// What `validate_designation` gives: the parsed designation, which must start with a letter.
pub open spec fn spec_validate_designation(d: Seq<char>) -> Result<Seq<char>, ElucidatorErrorV> {
    match spec_parse_designation(d) {
        Err(e) => Err(e),
        Ok(t) => if t.len() == 0 {
            Err(
                ElucidatorErrorV::IllegalSpecification {
                    offender: d,
                    reason: SpecificationFailureV::ZeroLengthIdentifier,
                },
            )
        } else if !alphabetic(t[0]) {
            Err(
                ElucidatorErrorV::IllegalSpecification {
                    offender: d,
                    reason: SpecificationFailureV::IdentifierStartsNonAlphabetical,
                },
            )
        } else {
            Ok(t)
        },
    }
}

/// What `from_str` gives: the specification when both the designation and the members are
/// valid; else the one error, or both as `MultipleFailures` (designation first).
pub open spec fn spec_metadata_from(designation: Seq<char>, text: Seq<char>) -> Result<MetadataV, ElucidatorErrorV> {
    match (spec_validate_designation(designation), spec_validate_members(text)) {
        (Ok(d), Ok(ms)) => Ok(MetadataV { designation: d, members: ms }),
        (Err(e), Ok(_)) => Err(e),
        (Ok(_), Err(e)) => Err(e),
        (Err(a), Err(b)) => Err(ElucidatorErrorV::MultipleFailures(seq![a, b])),
    }
}

/// The trimmed comma-separated sections of `text`.
fn split_sections<'a>(text: &'a str) -> (r: Vec<&'a str>)
    ensures
        str_views(r@) == sections(text@),
{
    let pieces = split_str(text, ',');
    let ghost raw = str_views(pieces@);
    let mut r: Vec<&'a str> = Vec::new();
    let mut i: usize = 0;
    while i < pieces.len()
        invariant
            i <= pieces@.len(),
            raw == str_views(pieces@),
            str_views(r@) == raw.subrange(0, i as int).map_values(|x: Seq<char>| trim(x)),
        decreases pieces.len() - i,
    {
        let ghost before = str_views(r@);
        r.push(trim_str(pieces[i]));
        proof {
            assert(str_views(r@) =~= before.push(trim(raw[i as int])));
            assert(raw.subrange(0, i + 1).map_values(|x: Seq<char>| trim(x)) =~= raw.subrange(0, i as int).map_values(
                |x: Seq<char>| trim(x),
            ).push(trim(raw[i as int])));
        }
        i = i + 1;
    }
    assert(raw.subrange(0, raw.len() as int) =~= raw);
    r
}

/// The name of a section: its trimmed text before the first colon.
fn name_of_section(sec: &str) -> (r: Option<String>)
    ensures
        section_name(sec@) == (match r {
            Some(s) => Some(s@),
            None => None::<Seq<char>>,
        }),
{
    let v = chars_of(sec);
    let n = v.len();
    proof {
        assert(v@.subrange(0, n as int) =~= v@);
    }
    match find_char(v.as_slice(), ':', 0, n) {
        Some(ci) => Some(trim_str(sec.substring_char(0, ci)).to_owned()),
        None => None,
    }
}

pub open spec fn opt_string_views(v: Seq<Option<String>>) -> Seq<Option<Seq<char>>> {
    Seq::new(
        v.len(),
        |i: int|
            match v[i] {
                Some(s) => Some(s@),
                None => None,
            },
    )
}

fn report_member_error(e: ElucidatorError, text: &str) -> (r: ElucidatorError)
    ensures
        r@ == member_failure(e@, text@),
{
    match e {
        ElucidatorError::Parsing { offender, reason } => match reason {
            ParsingFailure::IllegalDataType => ElucidatorError::IllegalSpecification {
                offender: text.to_owned(),
                reason: SpecificationFailure::IllegalDataType,
            },
            ParsingFailure::IllegalArraySizing => ElucidatorError::IllegalSpecification {
                offender: text.to_owned(),
                reason: SpecificationFailure::IllegalArraySizing,
            },
            ParsingFailure::IdentifierStartsNonAlphabetical => ElucidatorError::IllegalSpecification {
                offender: text.to_owned(),
                reason: SpecificationFailure::IdentifierStartsNonAlphabetical,
            },
            ParsingFailure::MissingIdSpecDelimiter => {
                if offender.as_str().unicode_len() == 0 {
                    ElucidatorError::Parsing {
                        offender: text.to_owned(),
                        reason: ParsingFailure::UnexpectedEndOfExpression,
                    }
                } else {
                    ElucidatorError::Parsing {
                        offender: text.to_owned(),
                        reason: ParsingFailure::MissingIdSpecDelimiter,
                    }
                }
            },
            other => ElucidatorError::Parsing { offender: text.to_owned(), reason: other },
        },
        other => other,
    }
}

impl MetadataSpecification {
    /// Checks a designation and the text of its members, and makes the specification.
    pub fn from_str(designation: &str, specification_text: &str) -> (r: Result<Self, ElucidatorError>)
        ensures
            r matches Ok(m) ==> spec_metadata_from(designation@, specification_text@) == Ok::<
                MetadataV,
                ElucidatorErrorV,
            >(m@),
            r matches Err(e) ==> spec_metadata_from(designation@, specification_text@) == Err::<
                MetadataV,
                ElucidatorErrorV,
            >(e@),
    {
        let validated_designation = MetadataSpecification::validate_designation(designation);
        let validated_members = MetadataSpecification::validate_members(specification_text);
        match (validated_designation, validated_members) {
            (Ok(d), Ok(ms)) => Ok(MetadataSpecification { designation: d, members: ms }),
            (Err(e), Ok(_)) => Err(e),
            (Ok(_), Err(e)) => Err(e),
            (Err(a), Err(b)) => {
                let mut errors: Vec<ElucidatorError> = Vec::new();
                errors.push(a);
                errors.push(b);
                let ghost ev = errors@;
                proof {
                    lemma_error_list_view(ev);
                    assert(error_list_view(ev) =~= seq![ev[0]@, ev[1]@]);
                }
                Err(ElucidatorError::MultipleFailures(Box::new(errors)))
            },
        }
    }

    /// The trimmed designation, if it is ASCII and holds only letters, digits and underscores.
    pub fn parse_designation(designation: &str) -> (r: Result<&str, ElucidatorError>)
        ensures
            r matches Ok(t) ==> spec_parse_designation(designation@) == Ok::<Seq<char>, ElucidatorErrorV>(t@),
            r matches Err(e) ==> spec_parse_designation(designation@) == Err::<Seq<char>, ElucidatorErrorV>(e@),
    {
        let trimmed = ascii_trimmed_or_err(designation)?;
        let v = chars_of(trimmed);
        let mut illegal_chars: Vec<char> = Vec::new();
        let mut i: usize = 0;
        while i < v.len()
            invariant
                i <= v@.len(),
                illegal_chars@ == sorted_illegal_ident(v@.subrange(0, i as int)),
            decreases v.len() - i,
        {
            let ghost s = v@.subrange(0, i + 1);
            assert(s.drop_last() =~= v@.subrange(0, i as int));
            if !valid_identifier_char(v[i]) {
                illegal_chars = insert_sorted_exec(&illegal_chars, v[i]);
            }
            i = i + 1;
        }
        assert(v@.subrange(0, v@.len() as int) =~= v@);
        if illegal_chars.len() == 0 {
            Ok(trimmed)
        } else {
            Err(
                ElucidatorError::Parsing {
                    offender: designation.to_owned(),
                    reason: ParsingFailure::IllegalCharacters(illegal_chars),
                },
            )
        }
    }

    /// Each comma-separated section parsed as a member specification (none for a blank text).
    pub fn parse_spec_text(specification_text: &str) -> (r: Vec<Result<MemberSpecification, ElucidatorError>>)
        ensures
            member_results_view(r@) == spec_parse_spec_text(specification_text@),
    {
        let sections = split_sections(specification_text);
        let ghost secs = str_views(sections@);
        if sections.len() == 1 && sections[0].unicode_len() == 0 {
            let r: Vec<Result<MemberSpecification, ElucidatorError>> = Vec::new();
            assert(member_results_view(r@) =~= spec_parse_spec_text(specification_text@));
            return r;
        }
        let mut r: Vec<Result<MemberSpecification, ElucidatorError>> = Vec::new();
        let mut i: usize = 0;
        while i < sections.len()
            invariant
                i <= sections@.len(),
                secs == str_views(sections@),
                member_results_view(r@) == secs.subrange(0, i as int).map_values(
                    |x: Seq<char>| spec_member_from(x),
                ),
            decreases sections.len() - i,
        {
            let ghost before = member_results_view(r@);
            let m = MemberSpecification::from(sections[i]);
            r.push(m);
            proof {
                assert(member_results_view(r@) =~= before.push(spec_member_from(secs[i as int])));
                assert(secs.subrange(0, i + 1).map_values(|x: Seq<char>| spec_member_from(x))
                    =~= secs.subrange(0, i as int).map_values(|x: Seq<char>| spec_member_from(x)).push(
                    spec_member_from(secs[i as int]),
                ));
            }
            i = i + 1;
        }
        assert(secs.subrange(0, secs.len() as int) =~= secs);
        r
    }

    /// The designation, checked: ASCII letters, digits and underscores, starting with a letter.
    pub fn validate_designation(designation: &str) -> (r: Result<String, ElucidatorError>)
        ensures
            r matches Ok(t) ==> spec_validate_designation(designation@) == Ok::<Seq<char>, ElucidatorErrorV>(t@),
            r matches Err(e) ==> spec_validate_designation(designation@) == Err::<Seq<char>, ElucidatorErrorV>(e@),
    {
        let parsed_designation = MetadataSpecification::parse_designation(designation)?;
        if parsed_designation.unicode_len() == 0 {
            Err(
                ElucidatorError::IllegalSpecification {
                    offender: designation.to_owned(),
                    reason: SpecificationFailure::ZeroLengthIdentifier,
                },
            )
        } else if !is_alphabetic(parsed_designation.get_char(0)) {
            Err(
                ElucidatorError::IllegalSpecification {
                    offender: designation.to_owned(),
                    reason: SpecificationFailure::IdentifierStartsNonAlphabetical,
                },
            )
        } else {
            Ok(parsed_designation.to_owned())
        }
    }

    /// The members of a specification text, checked as a whole.
    pub fn validate_members(specification_text: &str) -> (r: Result<Vec<MemberSpecification>, ElucidatorError>)
        ensures
            r matches Ok(ms) ==> spec_validate_members(specification_text@) == Ok::<
                Seq<MemberV>,
                ElucidatorErrorV,
            >(member_spec_views(ms@)),
            r matches Err(e) ==> spec_validate_members(specification_text@) == Err::<
                Seq<MemberV>,
                ElucidatorErrorV,
            >(e@),
    {
        let ghost text = specification_text@;
        let results = MetadataSpecification::parse_spec_text(specification_text);
        let sections = split_sections(specification_text);
        let ghost secs = str_views(sections@);
        if sections.len() == 1 && sections[0].unicode_len() == 0 {
            let ms: Vec<MemberSpecification> = Vec::new();
            assert(member_spec_views(ms@) =~= Seq::<MemberV>::empty());
            return Ok(ms);
        }
        assert(member_results_view(results@) == secs.map_values(|x: Seq<char>| spec_member_from(x)));
        assert(results@.len() == member_results_view(results@).len());
        let mut names: Vec<Option<String>> = Vec::new();
        let mut members: Vec<MemberSpecification> = Vec::new();
        let mut member_errors: Vec<ElucidatorError> = Vec::new();
        let mut repeat_errors: Vec<ElucidatorError> = Vec::new();
        let mut i: usize = 0;
        while i < sections.len()
            invariant
                i <= sections@.len(),
                secs == str_views(sections@),
                text == specification_text@,
                member_results_view(results@) == secs.map_values(|x: Seq<char>| spec_member_from(x)),
                results@.len() == secs.len(),
                opt_string_views(names@) == section_names(secs.subrange(0, i as int)),
                member_report(secs.subrange(0, i as int), text) == (
                    member_spec_views(members@),
                    error_list_view(member_errors@),
                    error_list_view(repeat_errors@),
                ),
            decreases sections.len() - i,
        {
            let ghost part = secs.subrange(0, i + 1);
            assert(part.drop_last() =~= secs.subrange(0, i as int));
            assert(part.last() == secs[i as int]);
            let ghost ms_before = member_spec_views(members@);
            let ghost me_before = error_list_view(member_errors@);
            let ghost re_before = error_list_view(repeat_errors@);
            let ghost names_before = opt_string_views(names@);
            assert(member_results_view(results@)[i as int] == spec_member_from(secs[i as int]));
            match &results[i] {
                Ok(m) => {
                    members.push(m.duplicate());
                    assert(member_spec_views(members@) =~= ms_before.push(m@));
                },
                Err(e) => {
                    let ghost before_vec = member_errors@;
                    let reported = report_member_error(e.duplicate(), specification_text);
                    member_errors.push(reported);
                    proof {
                        assert(member_errors@.drop_last() =~= before_vec);
                        assert(error_list_view(member_errors@) == me_before.push(member_failure(e@, text)));
                    }
                },
            }
            let name = name_of_section(sections[i]);
            match &name {
                Some(n) => {
                    let mut count: usize = 0;
                    let mut j: usize = 0;
                    while j < names.len()
                        invariant
                            j <= names@.len(),
                            names_before == opt_string_views(names@),
                            count == count_name(names_before.subrange(0, j as int), n@),
                            count <= j,
                        decreases names.len() - j,
                    {
                        let ghost sub = names_before.subrange(0, j + 1);
                        assert(sub.drop_last() =~= names_before.subrange(0, j as int));
                        match &names[j] {
                            Some(other) => {
                                if *other == *n {
                                    count = count + 1;
                                }
                            },
                            None => {},
                        }
                        j = j + 1;
                    }
                    assert(names_before.subrange(0, names@.len() as int) =~= names_before);
                    if n.as_str().unicode_len() > 0 && count == 1 {
                        let ghost before_vec = repeat_errors@;
                        let err = ElucidatorError::IllegalSpecification {
                            offender: n.clone(),
                            reason: SpecificationFailure::RepeatedIdentifier,
                        };
                        assert(err@ == ElucidatorErrorV::IllegalSpecification {
                            offender: n@,
                            reason: SpecificationFailureV::RepeatedIdentifier,
                        });
                        repeat_errors.push(err);
                        assert(repeat_errors@.last() == err);
                        proof {
                            assert(repeat_errors@.drop_last() =~= before_vec);
                            assert(error_list_view(repeat_errors@) == re_before.push(
                                ElucidatorErrorV::IllegalSpecification {
                                    offender: n@,
                                    reason: SpecificationFailureV::RepeatedIdentifier,
                                },
                            ));
                        }
                    }
                    assert(names_before == section_names(part.drop_last()));
                    assert(section_name(part.last()) == Some(n@));
                },
                None => {
                    assert(section_name(part.last()) == None::<Seq<char>>);
                },
            }
            proof {
                let (oks, merrs, rerrs) = member_report(part, text);
                assert(member_report(part.drop_last(), text) == (ms_before, me_before, re_before));
                assert(oks == member_spec_views(members@));
                assert(merrs == error_list_view(member_errors@));
                assert(rerrs == error_list_view(repeat_errors@));
            }
            names.push(name);
            proof {
                assert(section_names(secs.subrange(0, i + 1)) =~= section_names(secs.subrange(0, i as int)).push(
                    section_name(secs[i as int]),
                ));
                assert(opt_string_views(names@) =~= names_before.push(section_name(secs[i as int])));
            }
            i = i + 1;
        }
        assert(secs.subrange(0, secs.len() as int) =~= secs);
        let ghost me = member_errors@;
        let ghost re = repeat_errors@;
        let mut errors = member_errors;
        let mut repeats = repeat_errors;
        errors.append(&mut repeats);
        proof {
            lemma_error_list_view(me);
            lemma_error_list_view(re);
            lemma_error_list_view(errors@);
            assert(errors@ =~= me + re);
            assert(error_list_view(errors@) =~= error_list_view(me) + error_list_view(re));
        }
        if errors.len() == 0 {
            Ok(members)
        } else if errors.len() == 1 {
            let e = errors.remove(0);
            Err(e)
        } else {
            Err(ElucidatorError::MultipleFailures(Box::new(errors)))
        }
    }
}

} // verus!
