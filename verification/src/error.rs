//! Errors: the public `ElucidatorError`, the parser's `InternalError`, their reasons, how they
//! merge and how they are written as text.
use vstd::prelude::*;
use crate::token::{TokenClone, TokenV, token_text};
use crate::text::{decimal, push_char, push_decimal, push_str};

verus! {

#[verifier::external_type_specification]
#[verifier::external_body]
pub struct ExFromUtf8Error(std::string::FromUtf8Error);

/// `FromUtf8Error::clone`: nothing is stated of the copy, which is carried through and never
/// inspected.
pub assume_specification[ <std::string::FromUtf8Error as Clone>::clone ](
    e: &std::string::FromUtf8Error,
) -> std::string::FromUtf8Error;

/// `parts` joined, with `sep` between neighbours.
pub open spec fn join(parts: Seq<Seq<char>>, sep: Seq<char>) -> Seq<char>
    decreases parts.len(),
{
    if parts.len() == 0 {
        Seq::empty()
    } else if parts.len() == 1 {
        parts[0]
    } else {
        join(parts.drop_last(), sep) + sep + parts.last()
    }
}

/// The characters of `cs` written one by one, separated by `", "`.
pub open spec fn char_list_text(cs: Seq<char>) -> Seq<char> {
    join(Seq::new(cs.len(), |i: int| seq![cs[i]]), ", "@)
}

pub proof fn lemma_join_step(parts: Seq<Seq<char>>, sep: Seq<char>, i: int)
    requires
        1 <= i < parts.len(),
    ensures
        join(parts.subrange(0, i + 1), sep) == join(parts.subrange(0, i), sep) + sep + parts[i],
{
    let p = parts.subrange(0, i + 1);
    assert(p.drop_last() =~= parts.subrange(0, i));
}

/// Appends `cs` as `char_list_text` writes it.
fn push_char_list(s: &mut String, cs: &Vec<char>)
    ensures
        final(s)@ == old(s)@ + char_list_text(cs@),
{
    let ghost parts = Seq::new(cs@.len(), |i: int| seq![cs@[i]]);
    let mut i: usize = 0;
    while i < cs.len()
        invariant
            i <= cs@.len(),
            parts == Seq::new(cs@.len(), |i: int| seq![cs@[i]]),
            s@ == old(s)@ + join(parts.subrange(0, i as int), ", "@),
        decreases cs.len() - i,
    {
        if i > 0 {
            push_str(s, ", ");
            proof {
                lemma_join_step(parts, ", "@, i as int);
            }
        } else {
            assert(parts.subrange(0, 1) =~= seq![parts[0]]);
        }
        push_char(s, cs[i]);
        assert(parts[i as int] =~= seq![cs@[i as int]]);
        i = i + 1;
        assert(s@ =~= old(s)@ + join(parts.subrange(0, i as int), ", "@));
    }
    assert(parts.subrange(0, cs@.len() as int) =~= parts);
}

/// A copy of a list of characters.
pub fn copy_chars(cs: &Vec<char>) -> (r: Vec<char>)
    ensures
        r@ == cs@,
{
    let mut r: Vec<char> = Vec::new();
    let mut i: usize = 0;
    while i < cs.len()
        invariant
            i <= cs@.len(),
            r@ == cs@.subrange(0, i as int),
        decreases cs.len() - i,
    {
        r.push(cs[i]);
        i = i + 1;
    }
    r
}

/// Why parsing failed.
#[derive(Debug, PartialEq, Clone)]
pub enum ParsingFailure {
    MissingIdSpecDelimiter,
    UnexpectedEndOfExpression,
    NonAsciiEncoding,
    IllegalCharacters(Vec<char>),
    IllegalDataType,
    IllegalArraySizing,
    IdentifierStartsNonAlphabetical,
}

pub enum ParsingFailureV {
    MissingIdSpecDelimiter,
    UnexpectedEndOfExpression,
    NonAsciiEncoding,
    IllegalCharacters(Seq<char>),
    IllegalDataType,
    IllegalArraySizing,
    IdentifierStartsNonAlphabetical,
}

impl View for ParsingFailure {
    type V = ParsingFailureV;

    open spec fn view(&self) -> ParsingFailureV {
        match self {
            ParsingFailure::MissingIdSpecDelimiter => ParsingFailureV::MissingIdSpecDelimiter,
            ParsingFailure::UnexpectedEndOfExpression => ParsingFailureV::UnexpectedEndOfExpression,
            ParsingFailure::NonAsciiEncoding => ParsingFailureV::NonAsciiEncoding,
            ParsingFailure::IllegalCharacters(cs) => ParsingFailureV::IllegalCharacters(cs@),
            ParsingFailure::IllegalDataType => ParsingFailureV::IllegalDataType,
            ParsingFailure::IllegalArraySizing => ParsingFailureV::IllegalArraySizing,
            ParsingFailure::IdentifierStartsNonAlphabetical => ParsingFailureV::IdentifierStartsNonAlphabetical,
        }
    }
}

pub open spec fn illegal_sizing_text() -> Seq<char> {
    "The size of the array is not valid; valid sizes must be unsigned integers or empty"@
}

pub open spec fn parsing_failure_text(r: ParsingFailureV) -> Seq<char> {
    match r {
        ParsingFailureV::MissingIdSpecDelimiter => "Missing delimeter : between identifier and type specification"@,
        ParsingFailureV::UnexpectedEndOfExpression => "Unexpected end of expression"@,
        ParsingFailureV::NonAsciiEncoding => "Text must be ASCII-encoded"@,
        ParsingFailureV::IllegalCharacters(cs) => "Illegal characters encountered: "@ + char_list_text(cs),
        ParsingFailureV::IllegalDataType => "Illegal data type"@,
        ParsingFailureV::IllegalArraySizing => illegal_sizing_text(),
        ParsingFailureV::IdentifierStartsNonAlphabetical => "Identifiers must start with alphabetical character"@,
    }
}

impl ParsingFailure {
    pub fn duplicate(&self) -> (r: ParsingFailure)
        ensures
            r@ == self@,
    {
        match self {
            ParsingFailure::MissingIdSpecDelimiter => ParsingFailure::MissingIdSpecDelimiter,
            ParsingFailure::UnexpectedEndOfExpression => ParsingFailure::UnexpectedEndOfExpression,
            ParsingFailure::NonAsciiEncoding => ParsingFailure::NonAsciiEncoding,
            ParsingFailure::IllegalCharacters(cs) => ParsingFailure::IllegalCharacters(copy_chars(cs)),
            ParsingFailure::IllegalDataType => ParsingFailure::IllegalDataType,
            ParsingFailure::IllegalArraySizing => ParsingFailure::IllegalArraySizing,
            ParsingFailure::IdentifierStartsNonAlphabetical => ParsingFailure::IdentifierStartsNonAlphabetical,
        }
    }

    /// The reason as text.
    pub fn to_display_string(&self) -> (s: String)
        ensures
            s@ == parsing_failure_text(self@),
    {
        let mut s = String::new();
        match self {
            ParsingFailure::MissingIdSpecDelimiter => {
                push_str(&mut s, "Missing delimeter : between identifier and type specification")
            },
            ParsingFailure::UnexpectedEndOfExpression => push_str(&mut s, "Unexpected end of expression"),
            ParsingFailure::NonAsciiEncoding => push_str(&mut s, "Text must be ASCII-encoded"),
            ParsingFailure::IllegalCharacters(cs) => {
                push_str(&mut s, "Illegal characters encountered: ");
                push_char_list(&mut s, cs);
            },
            ParsingFailure::IllegalDataType => push_str(&mut s, "Illegal data type"),
            ParsingFailure::IllegalArraySizing => push_str(
                &mut s,
                "The size of the array is not valid; valid sizes must be unsigned integers or empty",
            ),
            ParsingFailure::IdentifierStartsNonAlphabetical => {
                push_str(&mut s, "Identifiers must start with alphabetical character")
            },
        }
        s
    }
}

/// Why a specification is not allowed.
#[derive(Debug, PartialEq, Clone)]
pub enum SpecificationFailure {
    RepeatedIdentifier,
    IdentifierStartsNonAlphabetical,
    IllegalDataType,
    ZeroLengthIdentifier,
    IllegalArraySizing,
    IllegalCharacters(Vec<char>),
}

pub enum SpecificationFailureV {
    RepeatedIdentifier,
    IdentifierStartsNonAlphabetical,
    IllegalDataType,
    ZeroLengthIdentifier,
    IllegalArraySizing,
    IllegalCharacters(Seq<char>),
}

impl View for SpecificationFailure {
    type V = SpecificationFailureV;

    open spec fn view(&self) -> SpecificationFailureV {
        match self {
            SpecificationFailure::RepeatedIdentifier => SpecificationFailureV::RepeatedIdentifier,
            SpecificationFailure::IdentifierStartsNonAlphabetical => SpecificationFailureV::IdentifierStartsNonAlphabetical,
            SpecificationFailure::IllegalDataType => SpecificationFailureV::IllegalDataType,
            SpecificationFailure::ZeroLengthIdentifier => SpecificationFailureV::ZeroLengthIdentifier,
            SpecificationFailure::IllegalArraySizing => SpecificationFailureV::IllegalArraySizing,
            SpecificationFailure::IllegalCharacters(cs) => SpecificationFailureV::IllegalCharacters(cs@),
        }
    }
}

pub open spec fn specification_failure_text(r: SpecificationFailureV) -> Seq<char> {
    match r {
        SpecificationFailureV::RepeatedIdentifier => "Identifier is repeated, causing a naming collision"@,
        SpecificationFailureV::IdentifierStartsNonAlphabetical => "Identifiers must start with alphabetical character"@,
        SpecificationFailureV::IllegalDataType => "Illegal data type"@,
        SpecificationFailureV::ZeroLengthIdentifier => "Identifiers must have non-zero length"@,
        SpecificationFailureV::IllegalArraySizing => illegal_sizing_text(),
        SpecificationFailureV::IllegalCharacters(cs) => "Illegal characters encountered: "@ + char_list_text(cs),
    }
}

impl SpecificationFailure {
    pub fn duplicate(&self) -> (r: SpecificationFailure)
        ensures
            r@ == self@,
    {
        match self {
            SpecificationFailure::RepeatedIdentifier => SpecificationFailure::RepeatedIdentifier,
            SpecificationFailure::IdentifierStartsNonAlphabetical => SpecificationFailure::IdentifierStartsNonAlphabetical,
            SpecificationFailure::IllegalDataType => SpecificationFailure::IllegalDataType,
            SpecificationFailure::ZeroLengthIdentifier => SpecificationFailure::ZeroLengthIdentifier,
            SpecificationFailure::IllegalArraySizing => SpecificationFailure::IllegalArraySizing,
            SpecificationFailure::IllegalCharacters(cs) => SpecificationFailure::IllegalCharacters(copy_chars(cs)),
        }
    }

    /// The reason as text.
    pub fn to_display_string(&self) -> (s: String)
        ensures
            s@ == specification_failure_text(self@),
    {
        let mut s = String::new();
        match self {
            SpecificationFailure::RepeatedIdentifier => {
                push_str(&mut s, "Identifier is repeated, causing a naming collision")
            },
            SpecificationFailure::IdentifierStartsNonAlphabetical => {
                push_str(&mut s, "Identifiers must start with alphabetical character")
            },
            SpecificationFailure::IllegalDataType => push_str(&mut s, "Illegal data type"),
            SpecificationFailure::ZeroLengthIdentifier => {
                push_str(&mut s, "Identifiers must have non-zero length")
            },
            SpecificationFailure::IllegalArraySizing => push_str(
                &mut s,
                "The size of the array is not valid; valid sizes must be unsigned integers or empty",
            ),
            SpecificationFailure::IllegalCharacters(cs) => {
                push_str(&mut s, "Illegal characters encountered: ");
                push_char_list(&mut s, cs);
            },
        }
        s
    }
}

/// Errors found while parsing and validating a designation specification, located by token.
#[derive(Debug, PartialEq)]
pub enum InternalError {
    Parsing { offender: TokenClone, reason: ParsingFailure },
    IllegalSpecification { offender: TokenClone, reason: SpecificationFailure },
    MultipleFailures(Vec<InternalError>),
}

pub enum InternalErrorV {
    Parsing { offender: TokenV, reason: ParsingFailureV },
    IllegalSpecification { offender: TokenV, reason: SpecificationFailureV },
    MultipleFailures(Seq<InternalErrorV>),
}

impl View for InternalError {
    type V = InternalErrorV;

    open spec fn view(&self) -> InternalErrorV
        decreases self,
    {
        match self {
            InternalError::Parsing { offender, reason } => InternalErrorV::Parsing {
                offender: offender@,
                reason: reason@,
            },
            InternalError::IllegalSpecification { offender, reason } => InternalErrorV::IllegalSpecification {
                offender: offender@,
                reason: reason@,
            },
            InternalError::MultipleFailures(es) => InternalErrorV::MultipleFailures(
                Seq::new(
                    es@.len(),
                    |i: int|
                        if 0 <= i < es@.len() {
                            es@[i].view()
                        } else {
                            InternalErrorV::MultipleFailures(Seq::empty())
                        },
                ),
            ),
        }
    }
}

/// The views of a list of internal errors.
pub open spec fn internal_views(es: Seq<InternalError>) -> Seq<InternalErrorV> {
    Seq::new(es.len(), |i: int| es[i]@)
}

/// How an internal error is written.
pub open spec fn internal_error_text(e: InternalErrorV) -> Seq<char>
    decreases e,
{
    match e {
        InternalErrorV::Parsing { offender, reason } => "Failed to parse due to "@
            + parsing_failure_text(reason) + ": "@ + token_text(offender),
        InternalErrorV::IllegalSpecification { offender, reason } => "Illegal specification \""@
            + token_text(offender) + "\": "@ + specification_failure_text(reason),
        InternalErrorV::MultipleFailures(es) => "Multiple errors occurred:\n"@ + internal_lines(es),
    }
}

/// The errors of `es` written one per line.
pub open spec fn internal_lines(es: Seq<InternalErrorV>) -> Seq<char>
    decreases es,
{
    if es.len() == 0 {
        Seq::empty()
    } else if es.len() == 1 {
        internal_error_text(es[0])
    } else {
        proof {
            assert(decreases_to!(es => es.drop_last()));
        }
        internal_lines(es.drop_last()) + "\n"@ + internal_error_text(es.last())
    }
}

/// What `expand` gives of an internal error: its leaves, with nested lists opened.
pub open spec fn expand_internal(e: InternalErrorV) -> Seq<InternalErrorV>
    decreases e,
{
    match e {
        InternalErrorV::MultipleFailures(es) => expand_all_internal(es),
        _ => seq![e],
    }
}

/// The errors of a list, each expanded, in order.
pub open spec fn expand_all_internal(es: Seq<InternalErrorV>) -> Seq<InternalErrorV>
    decreases es,
{
    if es.len() == 0 {
        Seq::empty()
    } else {
        proof {
            assert(decreases_to!(es => es.drop_last()));
        }
        expand_all_internal(es.drop_last()) + expand_internal(es.last())
    }
}

/// Keeps the first of the errors that are written alike.
pub open spec fn dedup_by_text(s: Seq<InternalErrorV>) -> Seq<InternalErrorV>
    decreases s.len(),
{
    if s.len() == 0 {
        s
    } else {
        let d = dedup_by_text(s.drop_last());
        if exists|j: int|
            0 <= j < s.len() - 1 && internal_error_text(#[trigger] s[j]) == internal_error_text(
                s.last(),
            ) {
            d
        } else {
            d.push(s.last())
        }
    }
}

/// The error that `InternalError::merge` makes of a list: the expanded errors, without repeats,
/// alone or as a list.
pub open spec fn merged_internal(es: Seq<InternalErrorV>) -> InternalErrorV {
    let d = dedup_by_text(expand_all_internal(es));
    if d.len() == 1 {
        d[0]
    } else {
        InternalErrorV::MultipleFailures(d)
    }
}

impl InternalError {
    #[verifier::loop_isolation(false)]
    pub fn duplicate(&self) -> (r: InternalError)
        ensures
            r@ == self@,
        decreases self,
    {
        match self {
            InternalError::Parsing { offender, reason } => InternalError::Parsing {
                offender: offender.duplicate(),
                reason: reason.duplicate(),
            },
            InternalError::IllegalSpecification { offender, reason } => InternalError::IllegalSpecification {
                offender: offender.duplicate(),
                reason: reason.duplicate(),
            },
            InternalError::MultipleFailures(es) => {
                let mut r: Vec<InternalError> = Vec::new();
                let mut i: usize = 0;
                while i < es.len()
                    invariant
                        i <= es@.len(),
                        r@.len() == i,
                        forall|j: int| 0 <= j < i ==> (#[trigger] r@[j])@ == es@[j]@,
                    decreases es.len() - i,
                {
                    proof {
                        assert(decreases_to!(self => es[i as int]));
                    }
                    r.push(es[i].duplicate());
                    i = i + 1;
                }
                let out = InternalError::MultipleFailures(r);
                assert(out@->MultipleFailures_0 =~= self@->MultipleFailures_0);
                out
            },
        }
    }

    /// The error as text.
    #[verifier::loop_isolation(false)]
    pub fn to_display_string(&self) -> (s: String)
        ensures
            s@ == internal_error_text(self@),
        decreases self,
    {
        match self {
            InternalError::Parsing { offender, reason } => {
                let mut s = String::new();
                push_str(&mut s, "Failed to parse due to ");
                let r = reason.to_display_string();
                push_str(&mut s, r.as_str());
                push_str(&mut s, ": ");
                let o = offender.to_display_string();
                push_str(&mut s, o.as_str());
                assert(s@ =~= internal_error_text(self@));
                s
            },
            InternalError::IllegalSpecification { offender, reason } => {
                let mut s = String::new();
                push_str(&mut s, "Illegal specification \"");
                let o = offender.to_display_string();
                push_str(&mut s, o.as_str());
                push_str(&mut s, "\": ");
                let r = reason.to_display_string();
                push_str(&mut s, r.as_str());
                assert(s@ =~= internal_error_text(self@));
                s
            },
            InternalError::MultipleFailures(es) => {
                let ghost inner = self@->MultipleFailures_0;
                assert(inner.len() == es@.len());
                assert(forall|j: int| 0 <= j < es@.len() ==> inner[j] == es@[j]@);
                let mut body = String::new();
                let mut i: usize = 0;
                while i < es.len()
                    invariant
                        i <= es@.len(),
                        inner.len() == es@.len(),
                        forall|j: int| 0 <= j < es@.len() ==> inner[j] == es@[j]@,
                        body@ == internal_lines(inner.subrange(0, i as int)),
                    decreases es.len() - i,
                {
                    let ghost sub = inner.subrange(0, i + 1);
                    assert(sub.drop_last() =~= inner.subrange(0, i as int));
                    if i > 0 {
                        push_str(&mut body, "\n");
                    }
                    let t = es[i].to_display_string();
                    push_str(&mut body, t.as_str());
                    i = i + 1;
                    assert(body@ =~= internal_lines(inner.subrange(0, i as int)));
                }
                assert(inner.subrange(0, es@.len() as int) =~= inner);
                let mut s = String::new();
                push_str(&mut s, "Multiple errors occurred:\n");
                push_str(&mut s, body.as_str());
                assert(s@ =~= internal_error_text(self@));
                s
            },
        }
    }

    /// The leaves of this error, nested lists opened, in order.
    #[verifier::loop_isolation(false)]
    fn expand(&self) -> (r: Vec<InternalError>)
        ensures
            internal_views(r@) == expand_internal(self@),
        decreases self,
    {
        match self {
            InternalError::MultipleFailures(es) => {
                let ghost inner = self@->MultipleFailures_0;
                assert(inner.len() == es@.len());
                assert(forall|j: int| 0 <= j < es@.len() ==> inner[j] == es@[j]@);
                let mut r: Vec<InternalError> = Vec::new();
                let mut i: usize = 0;
                while i < es.len()
                    invariant
                        i <= es@.len(),
                        inner.len() == es@.len(),
                        forall|j: int| 0 <= j < es@.len() ==> inner[j] == es@[j]@,
                        internal_views(r@) == expand_all_internal(inner.subrange(0, i as int)),
                    decreases es.len() - i,
                {
                    let sub = es[i].expand();
                    let ghost before = r@;
                    let mut k: usize = 0;
                    while k < sub.len()
                        invariant
                            k <= sub@.len(),
                            r@.len() == before.len() + k,
                            forall|j: int| 0 <= j < before.len() ==> r@[j] == before[j],
                            forall|j: int|
                                before.len() <= j < r@.len() ==> (#[trigger] r@[j])@ == sub@[j
                                    - before.len()]@,
                        decreases sub.len() - k,
                    {
                        r.push(sub[k].duplicate());
                        k = k + 1;
                    }
                    let ghost part = inner.subrange(0, i + 1);
                    assert(part.drop_last() =~= inner.subrange(0, i as int));
                    assert(internal_views(r@) =~= internal_views(before) + internal_views(sub@));
                    i = i + 1;
                }
                assert(inner.subrange(0, es@.len() as int) =~= inner);
                r
            },
            _ => {
                let mut r: Vec<InternalError> = Vec::new();
                r.push(self.duplicate());
                assert(internal_views(r@) =~= seq![self@]);
                r
            },
        }
    }

    /// Merges errors into one: all leaves in order, each kept once among those written alike;
    /// a single leaf stands alone.
    pub fn merge(errs: &[InternalError]) -> (r: InternalError)
        ensures
            r@ == merged_internal(internal_views(errs@)),
    {
        let ghost es = internal_views(errs@);
        let mut flat: Vec<InternalError> = Vec::new();
        let mut i: usize = 0;
        while i < errs.len()
            invariant
                i <= errs@.len(),
                es == internal_views(errs@),
                internal_views(flat@) == expand_all_internal(es.subrange(0, i as int)),
            decreases errs.len() - i,
        {
            let sub = errs[i].expand();
            let ghost before = flat@;
            let mut k: usize = 0;
            while k < sub.len()
                invariant
                    k <= sub@.len(),
                    flat@.len() == before.len() + k,
                    forall|j: int| 0 <= j < before.len() ==> flat@[j] == before[j],
                    forall|j: int|
                        before.len() <= j < flat@.len() ==> (#[trigger] flat@[j])@ == sub@[j
                            - before.len()]@,
                decreases sub.len() - k,
            {
                flat.push(sub[k].duplicate());
                k = k + 1;
            }
            let ghost part = es.subrange(0, i + 1);
            assert(part.drop_last() =~= es.subrange(0, i as int));
            assert(internal_views(flat@) =~= internal_views(before) + internal_views(sub@));
            i = i + 1;
        }
        assert(es.subrange(0, errs@.len() as int) =~= es);
        let ghost all = internal_views(flat@);
        assert(all == expand_all_internal(es));
        // keep the first of the errors written alike
        let mut texts: Vec<String> = Vec::new();
        let mut kept: Vec<InternalError> = Vec::new();
        let mut n: usize = 0;
        while n < flat.len()
            invariant
                n <= flat@.len(),
                all == internal_views(flat@),
                texts@.len() == n,
                forall|j: int| 0 <= j < n ==> (#[trigger] texts@[j])@ == internal_error_text(all[j]),
                internal_views(kept@) == dedup_by_text(all.subrange(0, n as int)),
            decreases flat.len() - n,
        {
            let t = flat[n].to_display_string();
            let mut seen = false;
            let mut j: usize = 0;
            while j < n
                invariant
                    j <= n,
                    n < flat@.len(),
                    texts@.len() == n,
                    forall|m: int| 0 <= m < n ==> (#[trigger] texts@[m])@ == internal_error_text(all[m]),
                    t@ == internal_error_text(all[n as int]),
                    seen <==> exists|m: int| 0 <= m < j && internal_error_text(#[trigger] all[m]) == t@,
                decreases n - j,
            {
                if texts[j] == t {
                    seen = true;
                }
                j = j + 1;
            }
            let ghost s = all.subrange(0, n + 1);
            assert(s.drop_last() =~= all.subrange(0, n as int));
            assert(s.last() == all[n as int]);
            if seen {
                assert(exists|m: int|
                    0 <= m < s.len() - 1 && internal_error_text(#[trigger] s[m]) == internal_error_text(
                        s.last(),
                    )) by {
                    let m = choose|m: int| 0 <= m < n && internal_error_text(#[trigger] all[m]) == t@;
                    assert(s[m] == all[m]);
                }
            } else {
                assert(!exists|m: int|
                    0 <= m < s.len() - 1 && internal_error_text(#[trigger] s[m]) == internal_error_text(
                        s.last(),
                    )) by {
                    if exists|m: int|
                        0 <= m < s.len() - 1 && internal_error_text(#[trigger] s[m])
                            == internal_error_text(s.last()) {
                        let m = choose|m: int|
                            0 <= m < s.len() - 1 && internal_error_text(#[trigger] s[m])
                                == internal_error_text(s.last());
                        assert(all[m] == s[m]);
                    }
                }
                let ghost before = kept@;
                kept.push(flat[n].duplicate());
                assert(internal_views(kept@) =~= internal_views(before).push(all[n as int]));
            }
            texts.push(t);
            n = n + 1;
        }
        assert(all.subrange(0, flat@.len() as int) =~= all);
        if kept.len() == 1 {
            kept[0].duplicate()
        } else {
            let ghost kv = internal_views(kept@);
            let out = InternalError::MultipleFailures(kept);
            assert(out@->MultipleFailures_0 =~= kv);
            out
        }
    }
}

/// The errors that this library reports.
#[derive(Debug, PartialEq)]
pub enum ElucidatorError {
    /// Errors related to converting between incompatible types
    Conversion { from: String, to: String },
    /// Errors related to attempt to cast from high precision or range to low precision or range
    Narrowing { from: String, to: String },
    /// Errors related to interpreting a dtype from a given buffer
    BufferSizing { expected: usize, found: usize },
    /// Errors when parsing from UTF8
    FromUtf8 { source: std::string::FromUtf8Error },
    /// Errors related to illegal or malformed specification
    Specification { context: String, column_start: usize, column_end: usize, reason: String },
    /// Multiple, simultaneous failures
    MultipleErrors(Box<Vec<ElucidatorError>>),
    /// Text that cannot be parsed
    Parsing { offender: String, reason: ParsingFailure },
    /// Text that parses but is not a legal specification
    IllegalSpecification { offender: String, reason: SpecificationFailure },
    /// Several failures of a metadata specification
    MultipleFailures(Box<Vec<ElucidatorError>>),
}

pub enum ElucidatorErrorV {
    Conversion { from: Seq<char>, to: Seq<char> },
    Narrowing { from: Seq<char>, to: Seq<char> },
    BufferSizing { expected: usize, found: usize },
    FromUtf8,
    Specification { context: Seq<char>, column_start: usize, column_end: usize, reason: Seq<char> },
    MultipleErrors(Seq<ElucidatorErrorV>),
    Parsing { offender: Seq<char>, reason: ParsingFailureV },
    IllegalSpecification { offender: Seq<char>, reason: SpecificationFailureV },
    MultipleFailures(Seq<ElucidatorErrorV>),
}

impl View for ElucidatorError {
    type V = ElucidatorErrorV;

    open spec fn view(&self) -> ElucidatorErrorV {
        error_view(self)
    }
}

/// What an error stands for.
pub open spec fn error_view(e: &ElucidatorError) -> ElucidatorErrorV
    decreases e, 1nat,
{
    match e {
        ElucidatorError::Conversion { from, to } => ElucidatorErrorV::Conversion { from: from@, to: to@ },
        ElucidatorError::Narrowing { from, to } => ElucidatorErrorV::Narrowing { from: from@, to: to@ },
        ElucidatorError::BufferSizing { expected, found } => ElucidatorErrorV::BufferSizing {
            expected: *expected,
            found: *found,
        },
        ElucidatorError::FromUtf8 { .. } => ElucidatorErrorV::FromUtf8,
        ElucidatorError::Specification { context, column_start, column_end, reason } => {
            ElucidatorErrorV::Specification {
                context: context@,
                column_start: *column_start,
                column_end: *column_end,
                reason: reason@,
            }
        },
        ElucidatorError::MultipleErrors(es) => ElucidatorErrorV::MultipleErrors(
            error_list_view((**es)@),
        ),
        ElucidatorError::Parsing { offender, reason } => ElucidatorErrorV::Parsing {
            offender: offender@,
            reason: reason@,
        },
        ElucidatorError::IllegalSpecification { offender, reason } => {
            ElucidatorErrorV::IllegalSpecification { offender: offender@, reason: reason@ }
        },
        ElucidatorError::MultipleFailures(es) => ElucidatorErrorV::MultipleFailures(
            error_list_view((**es)@),
        ),
    }
}

/// What each error of a list stands for.
pub open spec fn error_list_view(es: Seq<ElucidatorError>) -> Seq<ElucidatorErrorV>
    decreases es, 0nat,
{
    if es.len() == 0 {
        Seq::empty()
    } else {
        proof {
            assert(decreases_to!(es => es.drop_last()));
        }
        error_list_view(es.drop_last()).push(error_view(&es.last()))
    }
}

/// The views of a list of errors.
pub open spec fn error_views(es: Seq<ElucidatorError>) -> Seq<ElucidatorErrorV> {
    error_list_view(es)
}

pub proof fn lemma_error_list_view(es: Seq<ElucidatorError>)
    ensures
        error_list_view(es).len() == es.len(),
        forall|j: int| 0 <= j < es.len() ==> (#[trigger] error_list_view(es)[j]) == es[j]@,
    decreases es.len(),
{
    if es.len() > 0 {
        lemma_error_list_view(es.drop_last());
    }
}

/// What `expand` gives of an error: nested `MultipleErrors` opened, in order.
pub open spec fn expand_error(e: ElucidatorErrorV) -> Seq<ElucidatorErrorV>
    decreases e,
{
    match e {
        ElucidatorErrorV::MultipleErrors(es) => expand_all_errors(es),
        _ => seq![e],
    }
}

pub open spec fn expand_all_errors(es: Seq<ElucidatorErrorV>) -> Seq<ElucidatorErrorV>
    decreases es,
{
    if es.len() == 0 {
        Seq::empty()
    } else {
        proof {
            assert(decreases_to!(es => es.drop_last()));
        }
        expand_all_errors(es.drop_last()) + expand_error(es.last())
    }
}

/// The error that `ElucidatorError::merge` makes of a list: all of its errors with nested lists
/// opened; a single one stands alone, else they form `MultipleErrors`.
pub open spec fn merged_errors(es: Seq<ElucidatorErrorV>) -> ElucidatorErrorV {
    let d = expand_all_errors(es);
    if d.len() == 1 {
        d[0]
    } else {
        ElucidatorErrorV::MultipleErrors(d)
    }
}

/// How an error is written (for errors without a UTF-8 failure, whose message is std's).
pub open spec fn error_text(e: ElucidatorErrorV) -> Seq<char>
    decreases e,
{
    match e {
        ElucidatorErrorV::Conversion { from, to } => "Cannot convert "@ + from + " to "@ + to,
        ElucidatorErrorV::Narrowing { from, to } => "Conversion from "@ + from + " to "@ + to
            + " would cause narrowing"@,
        ElucidatorErrorV::BufferSizing { expected, found } => "Buffer expected size of "@ + decimal(
            expected as nat,
        ) + " bytes, found "@ + decimal(found as nat) + " instead"@,
        ElucidatorErrorV::FromUtf8 => Seq::empty(),
        ElucidatorErrorV::Specification { context, column_start, column_end, reason } => "Error "@
            + reason + " between positions "@ + decimal(column_start as nat) + " and "@ + decimal(
            column_end as nat,
        ) + ":\n"@ + context + "\n"@,
        ElucidatorErrorV::MultipleErrors(es) => error_lines(es, Seq::empty()),
        ElucidatorErrorV::Parsing { offender, reason } => "Failed to parse due to "@
            + parsing_failure_text(reason) + ": "@ + offender,
        ElucidatorErrorV::IllegalSpecification { offender, reason } => "Illegal specification \""@
            + offender + "\": "@ + specification_failure_text(reason),
        ElucidatorErrorV::MultipleFailures(es) => "Multiple errors occurred:\n"@ + error_lines(
            es,
            "\n"@,
        ),
    }
}

/// The errors of `es` written one after another, `sep` between neighbours.
pub open spec fn error_lines(es: Seq<ElucidatorErrorV>, sep: Seq<char>) -> Seq<char>
    decreases es,
{
    if es.len() == 0 {
        Seq::empty()
    } else if es.len() == 1 {
        error_text(es[0])
    } else {
        proof {
            assert(decreases_to!(es => es.drop_last()));
        }
        error_lines(es.drop_last(), sep) + sep + error_text(es.last())
    }
}

/// An error holds a text it could not decode as UTF-8, whose message `std` writes.
pub open spec fn holds_utf8_error(e: ElucidatorErrorV) -> bool
    decreases e,
{
    match e {
        ElucidatorErrorV::FromUtf8 => true,
        ElucidatorErrorV::MultipleErrors(es) => any_holds_utf8_error(es),
        ElucidatorErrorV::MultipleFailures(es) => any_holds_utf8_error(es),
        _ => false,
    }
}

pub open spec fn any_holds_utf8_error(es: Seq<ElucidatorErrorV>) -> bool
    decreases es,
{
    if es.len() == 0 {
        false
    } else {
        proof {
            assert(decreases_to!(es => es.drop_last()));
        }
        any_holds_utf8_error(es.drop_last()) || holds_utf8_error(es.last())
    }
}

/// Calls `FromUtf8Error`'s `Display`; the text is std's, and nothing is stated of it, since std
/// does not document its form and the error is opaque here.
#[verifier::external_body]
fn utf8_error_text(e: &std::string::FromUtf8Error) -> String {
    format!("{e}")
}

impl ElucidatorError {
    /// `Err(Conversion { from, to })`.
    pub fn new_conversion<T>(from: &str, to: &str) -> (r: Result<T, ElucidatorError>)
        ensures
            r matches Err(e) && e@ == (ElucidatorErrorV::Conversion { from: from@, to: to@ }),
    {
        Err(ElucidatorError::Conversion { from: from.to_owned(), to: to.to_owned() })
    }

    /// `Err(Narrowing { from, to })`.
    pub fn new_narrowing<T>(from: &str, to: &str) -> (r: Result<T, ElucidatorError>)
        ensures
            r matches Err(e) && e@ == (ElucidatorErrorV::Narrowing { from: from@, to: to@ }),
    {
        Err(ElucidatorError::Narrowing { from: from.to_owned(), to: to.to_owned() })
    }

    /// A copy of this error.
    #[verifier::loop_isolation(false)]
    pub fn duplicate(&self) -> (r: ElucidatorError)
        ensures
            r@ == self@,
        decreases self,
    {
        match self {
            ElucidatorError::Conversion { from, to } => ElucidatorError::Conversion {
                from: from.as_str().to_owned(),
                to: to.as_str().to_owned(),
            },
            ElucidatorError::Narrowing { from, to } => ElucidatorError::Narrowing {
                from: from.as_str().to_owned(),
                to: to.as_str().to_owned(),
            },
            ElucidatorError::BufferSizing { expected, found } => ElucidatorError::BufferSizing {
                expected: *expected,
                found: *found,
            },
            ElucidatorError::FromUtf8 { source } => ElucidatorError::FromUtf8 {
                source: source.clone(),
            },
            ElucidatorError::Specification { context, column_start, column_end, reason } => {
                ElucidatorError::Specification {
                    context: context.as_str().to_owned(),
                    column_start: *column_start,
                    column_end: *column_end,
                    reason: reason.as_str().to_owned(),
                }
            },
            ElucidatorError::MultipleErrors(es) => {
                assert(es@ == (**es)@);
                let ghost sv = self@->MultipleErrors_0;
                proof {
                    lemma_error_list_view((**es)@);
                }
                assert(sv.len() == es@.len());
                assert(forall|j: int| 0 <= j < es@.len() ==> sv[j] == es@[j]@);
                let mut r: Vec<ElucidatorError> = Vec::new();
                let mut i: usize = 0;
                while i < es.len()
                    invariant
                        i <= es@.len(),
                        r@.len() == i,
                        forall|j: int| 0 <= j < i ==> (#[trigger] r@[j])@ == es@[j]@,
                    decreases es.len() - i,
                {
                    proof {
                        assert(decreases_to!(self => es[i as int]));
                    }
                    r.push(es[i].duplicate());
                    i = i + 1;
                }
                let ghost rv = r@;
                let out = ElucidatorError::MultipleErrors(Box::new(r));
                let ghost ov = out@->MultipleErrors_0;
                proof {
                    lemma_error_list_view(rv);
                }
                assert(ov.len() == rv.len());
                assert(forall|j: int| 0 <= j < rv.len() ==> ov[j] == rv[j]@);
                assert(ov =~= sv);
                out
            },
            ElucidatorError::Parsing { offender, reason } => ElucidatorError::Parsing {
                offender: offender.as_str().to_owned(),
                reason: reason.duplicate(),
            },
            ElucidatorError::IllegalSpecification { offender, reason } => {
                ElucidatorError::IllegalSpecification {
                    offender: offender.as_str().to_owned(),
                    reason: reason.duplicate(),
                }
            },
            ElucidatorError::MultipleFailures(es) => {
                assert(es@ == (**es)@);
                let ghost sv = self@->MultipleFailures_0;
                proof {
                    lemma_error_list_view((**es)@);
                }
                assert(sv.len() == es@.len());
                assert(forall|j: int| 0 <= j < es@.len() ==> sv[j] == es@[j]@);
                let mut r: Vec<ElucidatorError> = Vec::new();
                let mut i: usize = 0;
                while i < es.len()
                    invariant
                        i <= es@.len(),
                        r@.len() == i,
                        forall|j: int| 0 <= j < i ==> (#[trigger] r@[j])@ == es@[j]@,
                    decreases es.len() - i,
                {
                    proof {
                        assert(decreases_to!(self => es[i as int]));
                    }
                    r.push(es[i].duplicate());
                    i = i + 1;
                }
                let ghost rv = r@;
                let out = ElucidatorError::MultipleFailures(Box::new(r));
                let ghost ov = out@->MultipleFailures_0;
                proof {
                    lemma_error_list_view(rv);
                }
                assert(ov.len() == rv.len());
                assert(forall|j: int| 0 <= j < rv.len() ==> ov[j] == rv[j]@);
                assert(ov =~= sv);
                out
            },
        }
    }

    /// This error with nested `MultipleErrors` opened, in order.
    #[verifier::loop_isolation(false)]
    fn expand(&self) -> (r: Vec<ElucidatorError>)
        ensures
            error_views(r@) == expand_error(self@),
        decreases self,
    {
        match self {
            ElucidatorError::MultipleErrors(es) => {
                let ghost inner = self@->MultipleErrors_0;
                proof {
                    lemma_error_list_view((**es)@);
                }
                let mut r: Vec<ElucidatorError> = Vec::new();
                let mut i: usize = 0;
                while i < es.len()
                    invariant
                        i <= es@.len(),
                        inner.len() == es@.len(),
                        forall|j: int| 0 <= j < es@.len() ==> inner[j] == es@[j]@,
                        error_views(r@) == expand_all_errors(inner.subrange(0, i as int)),
                    decreases es.len() - i,
                {
                    proof {
                        assert(decreases_to!(self => es[i as int]));
                    }
                    let sub = es[i].expand();
                    let ghost before = r@;
                    let mut k: usize = 0;
                    while k < sub.len()
                        invariant
                            k <= sub@.len(),
                            r@.len() == before.len() + k,
                            forall|j: int| 0 <= j < before.len() ==> r@[j] == before[j],
                            forall|j: int|
                                before.len() <= j < r@.len() ==> (#[trigger] r@[j])@ == sub@[j
                                    - before.len()]@,
                        decreases sub.len() - k,
                    {
                        r.push(sub[k].duplicate());
                        k = k + 1;
                    }
                    let ghost part = inner.subrange(0, i + 1);
                    assert(part.drop_last() =~= inner.subrange(0, i as int));
                    proof {
                        lemma_error_list_view(r@);
                        lemma_error_list_view(before);
                        lemma_error_list_view(sub@);
                    }
                    assert(error_views(r@) =~= error_views(before) + error_views(sub@));
                    i = i + 1;
                }
                assert(inner.subrange(0, es@.len() as int) =~= inner);
                r
            },
            _ => {
                let mut r: Vec<ElucidatorError> = Vec::new();
                r.push(self.duplicate());
                proof {
                    lemma_error_list_view(r@);
                }
                assert(error_views(r@) =~= seq![self@]);
                r
            },
        }
    }

    /// Merges errors: all of them in order, nested `MultipleErrors` opened; a single error stands
    /// alone.
    pub fn merge(errs: &[ElucidatorError]) -> (r: ElucidatorError)
        ensures
            r@ == merged_errors(error_views(errs@)),
    {
        let ghost es = error_views(errs@);
        proof {
            lemma_error_list_view(errs@);
        }
        let mut flat: Vec<ElucidatorError> = Vec::new();
        let mut i: usize = 0;
        while i < errs.len()
            invariant
                i <= errs@.len(),
                es == error_views(errs@),
                es.len() == errs@.len(),
                forall|j: int| 0 <= j < errs@.len() ==> es[j] == errs@[j]@,
                error_views(flat@) == expand_all_errors(es.subrange(0, i as int)),
            decreases errs.len() - i,
        {
            let sub = errs[i].expand();
            let ghost before = flat@;
            let mut k: usize = 0;
            while k < sub.len()
                invariant
                    k <= sub@.len(),
                    flat@.len() == before.len() + k,
                    forall|j: int| 0 <= j < before.len() ==> flat@[j] == before[j],
                    forall|j: int|
                        before.len() <= j < flat@.len() ==> (#[trigger] flat@[j])@ == sub@[j
                            - before.len()]@,
                decreases sub.len() - k,
            {
                flat.push(sub[k].duplicate());
                k = k + 1;
            }
            let ghost part = es.subrange(0, i + 1);
            assert(part.drop_last() =~= es.subrange(0, i as int));
            proof {
                lemma_error_list_view(flat@);
                lemma_error_list_view(before);
                lemma_error_list_view(sub@);
            }
            assert(error_views(flat@) =~= error_views(before) + error_views(sub@));
            i = i + 1;
        }
        assert(es.subrange(0, errs@.len() as int) =~= es);
        proof {
            lemma_error_list_view(flat@);
        }
        if flat.len() == 1 {
            flat[0].duplicate()
        } else {
            let ghost fv = error_views(flat@);
            let out = ElucidatorError::MultipleErrors(Box::new(flat));
            assert(out@->MultipleErrors_0 == fv);
            out
        }
    }

    /// `merge` of the two errors.
    pub fn merge_with(left: &ElucidatorError, right: &ElucidatorError) -> (r: ElucidatorError)
        ensures
            r@ == merged_errors(seq![left@, right@]),
    {
        let pair = vec![left.duplicate(), right.duplicate()];
        proof {
            lemma_error_list_view(pair@);
        }
        assert(error_views(pair@) =~= seq![left@, right@]);
        Self::merge(pair.as_slice())
    }

    /// The error as text; a UTF-8 failure is written as std writes it.
    #[verifier::loop_isolation(false)]
    pub fn to_display_string(&self) -> (s: String)
        ensures
            !holds_utf8_error(self@) ==> s@ == error_text(self@),
        decreases self,
    {
        let mut s = String::new();
        match self {
            ElucidatorError::Conversion { from, to } => {
                push_str(&mut s, "Cannot convert ");
                push_str(&mut s, from.as_str());
                push_str(&mut s, " to ");
                push_str(&mut s, to.as_str());
            },
            ElucidatorError::Narrowing { from, to } => {
                push_str(&mut s, "Conversion from ");
                push_str(&mut s, from.as_str());
                push_str(&mut s, " to ");
                push_str(&mut s, to.as_str());
                push_str(&mut s, " would cause narrowing");
            },
            ElucidatorError::BufferSizing { expected, found } => {
                push_str(&mut s, "Buffer expected size of ");
                push_decimal(&mut s, *expected as u64);
                push_str(&mut s, " bytes, found ");
                push_decimal(&mut s, *found as u64);
                push_str(&mut s, " instead");
            },
            ElucidatorError::FromUtf8 { source } => {
                let t = utf8_error_text(source);
                push_str(&mut s, t.as_str());
            },
            ElucidatorError::Specification { context, column_start, column_end, reason } => {
                push_str(&mut s, "Error ");
                push_str(&mut s, reason.as_str());
                push_str(&mut s, " between positions ");
                push_decimal(&mut s, *column_start as u64);
                push_str(&mut s, " and ");
                push_decimal(&mut s, *column_end as u64);
                push_str(&mut s, ":\n");
                push_str(&mut s, context.as_str());
                push_str(&mut s, "\n");
            },
            ElucidatorError::MultipleErrors(es) => {
                let ghost inner = self@->MultipleErrors_0;
                proof {
                    lemma_error_list_view((**es)@);
                }
                let mut i: usize = 0;
                while i < es.len()
                    invariant
                        i <= es@.len(),
                        inner.len() == es@.len(),
                        forall|j: int| 0 <= j < es@.len() ==> inner[j] == es@[j]@,
                        !any_holds_utf8_error(inner.subrange(0, i as int)) ==> s@ == error_lines(
                            inner.subrange(0, i as int),
                            Seq::empty(),
                        ),
                    decreases es.len() - i,
                {
                    let ghost part = inner.subrange(0, i + 1);
                    assert(part.drop_last() =~= inner.subrange(0, i as int));
                    proof {
                        assert(decreases_to!(self => es[i as int]));
                    }
                    let t = es[i].to_display_string();
                    push_str(&mut s, t.as_str());
                    i = i + 1;
                    assert(!any_holds_utf8_error(part) ==> s@ =~= error_lines(part, Seq::empty()));
                }
                assert(inner.subrange(0, es@.len() as int) =~= inner);
            },
            ElucidatorError::Parsing { offender, reason } => {
                push_str(&mut s, "Failed to parse due to ");
                let r = reason.to_display_string();
                push_str(&mut s, r.as_str());
                push_str(&mut s, ": ");
                push_str(&mut s, offender.as_str());
            },
            ElucidatorError::IllegalSpecification { offender, reason } => {
                push_str(&mut s, "Illegal specification \"");
                push_str(&mut s, offender.as_str());
                push_str(&mut s, "\": ");
                let r = reason.to_display_string();
                push_str(&mut s, r.as_str());
            },
            ElucidatorError::MultipleFailures(es) => {
                let ghost inner = self@->MultipleFailures_0;
                proof {
                    lemma_error_list_view((**es)@);
                }
                let mut body = String::new();
                let mut i: usize = 0;
                while i < es.len()
                    invariant
                        i <= es@.len(),
                        inner.len() == es@.len(),
                        forall|j: int| 0 <= j < es@.len() ==> inner[j] == es@[j]@,
                        !any_holds_utf8_error(inner.subrange(0, i as int)) ==> body@ == error_lines(
                            inner.subrange(0, i as int),
                            "\n"@,
                        ),
                    decreases es.len() - i,
                {
                    let ghost part = inner.subrange(0, i + 1);
                    assert(part.drop_last() =~= inner.subrange(0, i as int));
                    if i > 0 {
                        push_str(&mut body, "\n");
                    }
                    proof {
                        assert(decreases_to!(self => es[i as int]));
                    }
                    let t = es[i].to_display_string();
                    push_str(&mut body, t.as_str());
                    i = i + 1;
                    assert(!any_holds_utf8_error(part) ==> body@ =~= error_lines(part, "\n"@));
                }
                assert(inner.subrange(0, es@.len() as int) =~= inner);
                push_str(&mut s, "Multiple errors occurred:\n");
                push_str(&mut s, body.as_str());
            },
        }
        assert(!holds_utf8_error(self@) ==> s@ =~= error_text(self@));
        s
    }
}

/// Opening the nested lists of errors leaves no list inside.
pub proof fn lemma_expand_all_flat(es: Seq<ElucidatorErrorV>)
    ensures
        forall|k: int|
            0 <= k < expand_all_errors(es).len() ==> !(#[trigger] expand_all_errors(es)[k] is MultipleErrors),
    decreases es,
{
    if es.len() > 0 {
        assert(decreases_to!(es => es.drop_last()));
        lemma_expand_all_flat(es.drop_last());
        lemma_expand_flat(es.last());
        let a = expand_all_errors(es.drop_last());
        let b = expand_error(es.last());
        assert forall|k: int| 0 <= k < (a + b).len() implies !(#[trigger] (a + b)[k] is MultipleErrors) by {
            if k < a.len() {
                assert((a + b)[k] == a[k]);
            } else {
                assert((a + b)[k] == b[k - a.len()]);
            }
        }
    }
}

pub proof fn lemma_expand_flat(e: ElucidatorErrorV)
    ensures
        forall|k: int| 0 <= k < expand_error(e).len() ==> !(#[trigger] expand_error(e)[k] is MultipleErrors),
    decreases e,
{
    match e {
        ElucidatorErrorV::MultipleErrors(es) => {
            lemma_expand_all_flat(es);
        },
        _ => {},
    }
}

/// Law: `ElucidatorError::merge` never nests: its result is a single error that is not a list,
/// or a list of errors none of which is a list.
pub proof fn lemma_merged_errors_flat(es: Seq<ElucidatorErrorV>)
    ensures
        match merged_errors(es) {
            ElucidatorErrorV::MultipleErrors(inner) => forall|k: int|
                0 <= k < inner.len() ==> !(#[trigger] inner[k] is MultipleErrors),
            _ => true,
        },
        !(merged_errors(es) is MultipleErrors) ==> expand_all_errors(es).len() == 1,
{
    lemma_expand_all_flat(es);
}

proof fn lemma_expand_all_concat(s: Seq<ElucidatorErrorV>, t: Seq<ElucidatorErrorV>)
    ensures
        expand_all_errors(s + t) == expand_all_errors(s) + expand_all_errors(t),
    decreases t.len(),
{
    if t.len() == 0 {
        assert(s + t =~= s);
        assert(expand_all_errors(s) + expand_all_errors(t) =~= expand_all_errors(s));
    } else {
        assert((s + t).drop_last() =~= s + t.drop_last());
        assert((s + t).last() == t.last());
        assert(decreases_to!(s + t => (s + t).drop_last()));
        lemma_expand_all_concat(s, t.drop_last());
        assert(expand_all_errors(s + t) =~= expand_all_errors(s) + expand_all_errors(t));
    }
}

/// A list without lists inside is left as it is by opening its lists.
proof fn lemma_expand_all_of_flat(d: Seq<ElucidatorErrorV>)
    requires
        forall|k: int| 0 <= k < d.len() ==> !(#[trigger] d[k] is MultipleErrors),
    ensures
        expand_all_errors(d) == d,
    decreases d.len(),
{
    if d.len() > 0 {
        assert forall|k: int| 0 <= k < d.drop_last().len() implies !(#[trigger] d.drop_last()[k] is MultipleErrors) by {
            assert(d.drop_last()[k] == d[k]);
        }
        lemma_expand_all_of_flat(d.drop_last());
        let x = d.last();
        assert(!(d[d.len() - 1] is MultipleErrors));
        assert(expand_error(x) == seq![x]);
        assert(expand_all_errors(d) == expand_all_errors(d.drop_last()) + expand_error(d.last()));
        assert(expand_all_errors(d) =~= d);
    }
}

/// Opening the lists of a merged error gives the errors that were merged, lists opened.
proof fn lemma_expand_merged(es: Seq<ElucidatorErrorV>)
    ensures
        expand_error(merged_errors(es)) == expand_all_errors(es),
{
    let d = expand_all_errors(es);
    lemma_expand_all_flat(es);
    if d.len() == 1 {
        assert(!(d[0] is MultipleErrors));
        assert(seq![d[0]] =~= d);
    } else {
        lemma_expand_all_of_flat(d);
    }
}

/// Law: `ElucidatorError::merge` is associative: merging a merged pair with a third error, or a
/// first error with a merged pair, gives the merge of all three.
pub proof fn lemma_merge_associative(a: ElucidatorErrorV, b: ElucidatorErrorV, c: ElucidatorErrorV)
    ensures
        merged_errors(seq![merged_errors(seq![a, b]), c]) == merged_errors(seq![a, b, c]),
        merged_errors(seq![a, merged_errors(seq![b, c])]) == merged_errors(seq![a, b, c]),
{
    lemma_expand_merged(seq![a, b]);
    lemma_expand_merged(seq![b, c]);
    lemma_expand_all_concat(seq![a], seq![b]);
    lemma_expand_all_concat(seq![b], seq![c]);
    lemma_expand_all_concat(seq![a, b], seq![c]);
    lemma_expand_all_concat(seq![a], seq![b, c]);
    let m1 = merged_errors(seq![a, b]);
    let m2 = merged_errors(seq![b, c]);
    assert(seq![a, b] =~= seq![a] + seq![b]);
    assert(seq![b, c] =~= seq![b] + seq![c]);
    assert(seq![a, b, c] =~= seq![a, b] + seq![c]);
    assert(seq![a, b, c] =~= seq![a] + seq![b, c]);
    assert(seq![m1, c] =~= seq![m1] + seq![c]);
    assert(seq![a, m2] =~= seq![a] + seq![m2]);
    lemma_expand_all_concat(seq![m1], seq![c]);
    lemma_expand_all_concat(seq![a], seq![m2]);
    lemma_expand_single(m1);
    lemma_expand_single(m2);
    lemma_expand_single(a);
    lemma_expand_single(c);
    assert(expand_all_errors(seq![m1, c]) == expand_all_errors(seq![a, b, c]));
    assert(expand_all_errors(seq![a, m2]) == expand_all_errors(seq![a, b, c]));
}

proof fn lemma_expand_single(e: ElucidatorErrorV)
    ensures
        expand_all_errors(seq![e]) == expand_error(e),
{
    let s = seq![e];
    let empty = Seq::<ElucidatorErrorV>::empty();
    assert(s.drop_last() =~= empty);
    assert(expand_all_errors(empty) == empty);
    assert(s.last() == e);
    assert(expand_all_errors(s) == expand_all_errors(s.drop_last()) + expand_error(s.last()));
    assert(expand_all_errors(s) =~= expand_error(e));
}

impl Clone for InternalError {
    /// A copy with the same view.
    fn clone(&self) -> (r: Self)
        ensures
            r@ == self@,
    {
        self.duplicate()
    }
}

impl Clone for ElucidatorError {
    /// A copy with the same view.
    fn clone(&self) -> (r: Self)
        ensures
            r@ == self@,
    {
        self.duplicate()
    }
}

} // verus!
