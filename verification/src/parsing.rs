//! The first pass over a designation specification: splitting the text into tokens (identifier,
//! data type, sizing) with their columns, collecting the errors found on the way. Whether the
//! tokens are legal is checked afterwards, in `validating`.
use vstd::prelude::*;
use vstd::string::*;
use vstd::utf8::encode_utf8;
use crate::error::{internal_views, InternalError, InternalErrorV, ParsingFailure, ParsingFailureV};
use crate::text::{
    all_white, chars_of, find_char, first_index, first_non_white, leading_white, lemma_encode_utf8_concat,
    lemma_encode_utf8_len, lemma_first_index_props, split_on, trim, trim_bounds,
};
use crate::token::{token_at, DtypeToken, IdentifierToken, SizingToken, TokenClone, TokenData, TokenV};

verus! {

/// What a parser of one token found: the token, if any, and the errors.
#[verifier::ext_equal]
pub struct TokenOutputV {
    pub token: Option<TokenV>,
    pub errors: Seq<InternalErrorV>,
}

/// What the parser of a type specification found.
#[verifier::ext_equal]
pub struct TypeSpecV {
    pub dtype: Option<TokenV>,
    pub sizing: Option<TokenV>,
    pub errors: Seq<InternalErrorV>,
    pub is_singleton: bool,
}

/// What the parser of a member specification found.
#[verifier::ext_equal]
pub struct MemberSpecV {
    pub identifier: Option<TokenV>,
    pub typespec: Option<TypeSpecV>,
    pub errors: Seq<InternalErrorV>,
}

/// What the parser of a whole specification found.
#[verifier::ext_equal]
pub struct MetadataSpecV {
    pub member_outputs: Seq<MemberSpecV>,
    pub errors: Seq<InternalErrorV>,
}

pub open spec fn opt_token<'a>(t: Option<TokenData<'a>>) -> Option<TokenV> {
    match t {
        Some(d) => Some(d@),
        None => None,
    }
}

#[derive(Debug, PartialEq)]
pub struct WordParserOutput<'a> {
    pub word: Option<TokenData<'a>>,
    pub errors: Vec<InternalError>,
}

#[derive(Debug, PartialEq)]
pub struct IdentifierParserOutput<'a> {
    pub identifier: Option<IdentifierToken<'a>>,
    pub errors: Vec<InternalError>,
}

#[derive(Debug, PartialEq)]
pub struct DtypeParserOutput<'a> {
    pub dtype: Option<DtypeToken<'a>>,
    pub errors: Vec<InternalError>,
}

#[derive(Debug, PartialEq)]
pub struct SizingParserOutput<'a> {
    pub sizing: Option<SizingToken<'a>>,
    pub errors: Vec<InternalError>,
}

#[derive(Debug, PartialEq)]
pub struct TypeSpecParserOutput<'a> {
    pub dtype: Option<DtypeToken<'a>>,
    pub sizing: Option<SizingToken<'a>>,
    pub errors: Vec<InternalError>,
    pub is_singleton: bool,
}

#[derive(Debug, PartialEq)]
pub struct MemberSpecParserOutput<'a> {
    pub identifier: Option<IdentifierToken<'a>>,
    pub typespec: Option<TypeSpecParserOutput<'a>>,
    pub errors: Vec<InternalError>,
}

#[derive(Debug, PartialEq)]
pub struct MetadataSpecParserOutput<'a> {
    pub member_outputs: Vec<MemberSpecParserOutput<'a>>,
    pub errors: Vec<InternalError>,
}

impl<'a> View for WordParserOutput<'a> {
    type V = TokenOutputV;

    open spec fn view(&self) -> TokenOutputV {
        TokenOutputV { token: opt_token(self.word), errors: internal_views(self.errors@) }
    }
}

impl<'a> View for IdentifierParserOutput<'a> {
    type V = TokenOutputV;

    open spec fn view(&self) -> TokenOutputV {
        TokenOutputV {
            token: match self.identifier {
                Some(t) => Some(t.data@),
                None => None,
            },
            errors: internal_views(self.errors@),
        }
    }
}

impl<'a> View for DtypeParserOutput<'a> {
    type V = TokenOutputV;

    open spec fn view(&self) -> TokenOutputV {
        TokenOutputV {
            token: match self.dtype {
                Some(t) => Some(t.data@),
                None => None,
            },
            errors: internal_views(self.errors@),
        }
    }
}

impl<'a> View for SizingParserOutput<'a> {
    type V = TokenOutputV;

    open spec fn view(&self) -> TokenOutputV {
        TokenOutputV {
            token: match self.sizing {
                Some(t) => Some(t.data@),
                None => None,
            },
            errors: internal_views(self.errors@),
        }
    }
}

impl<'a> View for TypeSpecParserOutput<'a> {
    type V = TypeSpecV;

    open spec fn view(&self) -> TypeSpecV {
        TypeSpecV {
            dtype: match self.dtype {
                Some(t) => Some(t.data@),
                None => None,
            },
            sizing: match self.sizing {
                Some(t) => Some(t.data@),
                None => None,
            },
            errors: internal_views(self.errors@),
            is_singleton: self.is_singleton,
        }
    }
}

impl<'a> View for MemberSpecParserOutput<'a> {
    type V = MemberSpecV;

    open spec fn view(&self) -> MemberSpecV {
        MemberSpecV {
            identifier: match self.identifier {
                Some(t) => Some(t.data@),
                None => None,
            },
            typespec: match self.typespec {
                Some(t) => Some(t@),
                None => None,
            },
            errors: internal_views(self.errors@),
        }
    }
}

pub open spec fn member_views<'a>(ms: Seq<MemberSpecParserOutput<'a>>) -> Seq<MemberSpecV> {
    Seq::new(ms.len(), |i: int| ms[i]@)
}

impl<'a> View for MetadataSpecParserOutput<'a> {
    type V = MetadataSpecV;

    open spec fn view(&self) -> MetadataSpecV {
        MetadataSpecV {
            member_outputs: member_views(self.member_outputs@),
            errors: internal_views(self.errors@),
        }
    }
}

/// The word of `data`: its text without surrounding white space, located from column `start`;
/// if there is none, the whole text is reported as ending too early.
pub open spec fn spec_word(data: Seq<char>, start: int) -> TokenOutputV {
    if all_white(data) {
        TokenOutputV {
            token: None,
            errors: seq![
                InternalErrorV::Parsing {
                    offender: token_at(data, start),
                    reason: ParsingFailureV::UnexpectedEndOfExpression,
                },
            ],
        }
    } else {
        TokenOutputV {
            token: Some(token_at(trim(data), start + leading_white(data))),
            errors: Seq::empty(),
        }
    }
}

/// A sizing: blank text is the empty token just past its end (a dynamic array); otherwise its
/// word.
pub open spec fn spec_sizing(data: Seq<char>, start: int) -> TokenOutputV {
    if all_white(data) {
        TokenOutputV { token: Some(token_at(Seq::empty(), start + data.len())), errors: Seq::empty() }
    } else {
        spec_word(data, start)
    }
}

/// A type specification: the data type before the first `[`, and the sizing up to the next
/// `]`; an unclosed `[` is reported from its column, with the text after it.
pub open spec fn spec_typespec(data: Seq<char>, start: int) -> TypeSpecV {
    match first_index(data, '[') {
        None => {
            let d = spec_word(data, start);
            TypeSpecV { dtype: d.token, sizing: None, errors: d.errors, is_singleton: true }
        },
        Some(li) => {
            let d = spec_word(data.subrange(0, li), start);
            let after = data.subrange(li + 1, data.len() as int);
            match first_index(after, ']') {
                Some(rb) => {
                    let sz = spec_sizing(after.subrange(0, rb), start + li + 1);
                    TypeSpecV {
                        dtype: d.token,
                        sizing: sz.token,
                        errors: sz.errors + d.errors,
                        is_singleton: false,
                    }
                },
                None => TypeSpecV {
                    dtype: d.token,
                    sizing: None,
                    errors: seq![
                        InternalErrorV::Parsing {
                            offender: token_at(after, start + li),
                            reason: ParsingFailureV::UnexpectedEndOfExpression,
                        },
                    ] + d.errors,
                    is_singleton: false,
                },
            }
        },
    }
}

/// A member specification: the identifier before the first `:` and the type specification
/// after it; without a colon the trimmed text is reported as missing it.
pub open spec fn spec_memberspec(data: Seq<char>, start: int) -> MemberSpecV {
    match first_index(data, ':') {
        Some(ci) => {
            let i = spec_word(data.subrange(0, ci), start);
            let t = spec_typespec(data.subrange(ci + 1, data.len() as int), start + ci + 1);
            MemberSpecV { identifier: i.token, typespec: Some(t), errors: i.errors + t.errors }
        },
        None => MemberSpecV {
            identifier: None,
            typespec: None,
            errors: seq![
                InternalErrorV::Parsing {
                    offender: token_at(
                        trim(data),
                        if all_white(data) {
                            start
                        } else {
                            start + leading_white(data)
                        },
                    ),
                    reason: ParsingFailureV::MissingIdSpecDelimiter,
                },
            ],
        },
    }
}

/// The column given to the member that starts at character `from` of `s`: the byte offset just
/// past the comma before it (0 for the first member).
pub open spec fn section_start(s: Seq<char>, from: int) -> int {
    if from == 0 {
        0
    } else {
        encode_utf8(s.subrange(0, from - 1)).len() + 1int
    }
}

/// The members of `s` from character `from` on, one per comma-separated section.
pub open spec fn members_from(s: Seq<char>, from: int) -> Seq<MemberSpecV>
    decreases s.len() - from,
{
    if from < 0 || from > s.len() {
        Seq::empty()
    } else {
        let rest = s.subrange(from, s.len() as int);
        match first_index(rest, ',') {
            None => seq![spec_memberspec(rest, section_start(s, from))],
            Some(i) => {
                proof {
                    lemma_first_index_props(rest, ',');
                }
                seq![spec_memberspec(rest.subrange(0, i), section_start(s, from))] + members_from(
                    s,
                    from + i + 1,
                )
            },
        }
    }
}

/// The errors of the members, in order.
pub open spec fn all_member_errors(ms: Seq<MemberSpecV>) -> Seq<InternalErrorV>
    decreases ms.len(),
{
    if ms.len() == 0 {
        Seq::empty()
    } else {
        all_member_errors(ms.drop_last()) + ms.last().errors
    }
}

/// A whole specification: no members when it is blank, else one per comma-separated section.
pub open spec fn spec_metadataspec(s: Seq<char>) -> MetadataSpecV {
    let ms = if all_white(s) {
        Seq::empty()
    } else {
        members_from(s, 0)
    };
    MetadataSpecV { member_outputs: ms, errors: all_member_errors(ms) }
}

impl<'a> MemberSpecParserOutput<'a> {
    pub fn has_ident(&self) -> (b: bool)
        ensures
            b == self.identifier is Some,
    {
        self.identifier.is_some()
    }

    pub fn has_dtype(&self) -> (b: bool)
        ensures
            b == (self.typespec matches Some(ts) && ts.dtype is Some),
    {
        match &self.typespec {
            Some(ts) => ts.dtype.is_some(),
            None => false,
        }
    }

    pub fn has_sizing(&self) -> (b: bool)
        ensures
            b == (self.typespec matches Some(ts) && (ts.sizing is Some || ts.is_singleton)),
    {
        match &self.typespec {
            Some(ts) => ts.sizing.is_some() || ts.is_singleton,
            None => false,
        }
    }
}

/// Appends copies of `from` to `to`.
pub(crate) fn extend_errors(to: &mut Vec<InternalError>, from: &Vec<InternalError>)
    ensures
        internal_views(final(to)@) == internal_views(old(to)@) + internal_views(from@),
{
    let ghost before = to@;
    let mut i: usize = 0;
    while i < from.len()
        invariant
            i <= from@.len(),
            to@.len() == before.len() + i,
            forall|j: int| 0 <= j < before.len() ==> to@[j] == before[j],
            forall|j: int|
                before.len() <= j < to@.len() ==> (#[trigger] to@[j])@ == from@[j - before.len()]@,
        decreases from.len() - i,
    {
        to.push(from[i].duplicate());
        i = i + 1;
    }
    assert(internal_views(to@) =~= internal_views(before) + internal_views(from@));
}

/// The word of `data`, whose first character is at column `start_col`.
pub fn get_word<'a>(data: &'a str, start_col: usize) -> (out: WordParserOutput<'a>)
    requires
        start_col + data@.len() <= usize::MAX,
    ensures
        out@ == spec_word(data@, start_col as int),
{
    let v = chars_of(data);
    let (a, b) = trim_bounds(v.as_slice());
    if a == b {
        let mut errors: Vec<InternalError> = Vec::new();
        errors.push(
            InternalError::Parsing {
                offender: TokenClone::new(data, start_col),
                reason: ParsingFailure::UnexpectedEndOfExpression,
            },
        );
        let out = WordParserOutput { word: None, errors };
        assert(out@.errors =~= spec_word(data@, start_col as int).errors);
        out
    } else {
        let word = TokenData::new(data.substring_char(a, b), a + start_col, b + start_col);
        let out = WordParserOutput { word: Some(word), errors: Vec::new() };
        assert(out@.errors =~= Seq::<InternalErrorV>::empty());
        out
    }
}

/// The identifier in `data`.
pub fn get_identifier<'a>(data: &'a str, start_col: usize) -> (out: IdentifierParserOutput<'a>)
    requires
        start_col + data@.len() <= usize::MAX,
    ensures
        out@ == spec_word(data@, start_col as int),
{
    let word_output = get_word(data, start_col);
    let identifier = match word_output.word {
        Some(word) => Some(IdentifierToken { data: word }),
        None => None,
    };
    IdentifierParserOutput { identifier, errors: word_output.errors }
}

/// The data type in `data`.
pub fn get_dtype<'a>(data: &'a str, start_col: usize) -> (out: DtypeParserOutput<'a>)
    requires
        start_col + data@.len() <= usize::MAX,
    ensures
        out@ == spec_word(data@, start_col as int),
{
    let word_output = get_word(data, start_col);
    let dtype = match word_output.word {
        Some(word) => Some(DtypeToken { data: word }),
        None => None,
    };
    DtypeParserOutput { dtype, errors: word_output.errors }
}

/// The sizing in `data`, the text between square brackets.
pub fn get_sizing<'a>(data: &'a str, start_col: usize) -> (out: SizingParserOutput<'a>)
    requires
        start_col + data@.len() <= usize::MAX,
    ensures
        out@ == spec_sizing(data@, start_col as int),
{
    let v = chars_of(data);
    match first_non_white(v.as_slice()) {
        None => {
            let data_len = v.len();
            let pos = start_col + data_len;
            let empty = data.substring_char(data_len, data_len);
            let stoken = SizingToken { data: TokenData::new(empty, pos, pos) };
            let out = SizingParserOutput { sizing: Some(stoken), errors: Vec::new() };
            assert(out@.errors =~= Seq::<InternalErrorV>::empty());
            assert(empty@ =~= Seq::<char>::empty());
            out
        },
        Some(_) => {
            let word_output = get_word(data, start_col);
            let sizing = match word_output.word {
                Some(word) => Some(SizingToken { data: word }),
                None => None,
            };
            SizingParserOutput { sizing, errors: word_output.errors }
        },
    }
}

/// The type specification in `data`.
pub fn get_typespec<'a>(data: &'a str, start_col: usize) -> (out: TypeSpecParserOutput<'a>)
    requires
        start_col + data@.len() <= usize::MAX,
    ensures
        out@ == spec_typespec(data@, start_col as int),
{
    let v = chars_of(data);
    let n = v.len();
    proof {
        assert(v@.subrange(0, n as int) =~= v@);
    }
    let mut errors: Vec<InternalError> = Vec::new();
    let sizing;
    let is_singleton;
    let end_of_dtype;
    match find_char(v.as_slice(), '[', 0, n) {
        Some(li) => {
            is_singleton = false;
            end_of_dtype = li;
            let ghost after = data@.subrange(li + 1, n as int);
            proof {
                assert(v@.subrange(li + 1, n as int) =~= after);
            }
            match find_char(v.as_slice(), ']', li + 1, n) {
                Some(rb) => {
                    let sizing_text = data.substring_char(li + 1, rb);
                    proof {
                        assert(sizing_text@ =~= after.subrange(0, rb - (li + 1)));
                    }
                    let spo = get_sizing(sizing_text, start_col + li + 1);
                    extend_errors(&mut errors, &spo.errors);
                    sizing = spo.sizing;
                },
                None => {
                    sizing = None;
                    errors.push(
                        InternalError::Parsing {
                            offender: TokenClone::new(data.substring_char(li + 1, n), start_col + li),
                            reason: ParsingFailure::UnexpectedEndOfExpression,
                        },
                    );
                },
            }
        },
        None => {
            is_singleton = true;
            end_of_dtype = n;
            sizing = None;
        },
    }
    let dtype_text = data.substring_char(0, end_of_dtype);
    let dpo = get_dtype(dtype_text, start_col);
    extend_errors(&mut errors, &dpo.errors);
    let out = TypeSpecParserOutput { dtype: dpo.dtype, sizing, errors, is_singleton };
    proof {
        if is_singleton {
            assert(dtype_text@ =~= data@);
        }
        let s = spec_typespec(data@, start_col as int);
        assert(out@.errors =~= s.errors);
    }
    out
}

/// The member specification in `data`.
pub fn get_memberspec<'a>(data: &'a str, start_col: usize) -> (out: MemberSpecParserOutput<'a>)
    requires
        start_col + data@.len() <= usize::MAX,
    ensures
        out@ == spec_memberspec(data@, start_col as int),
{
    let v = chars_of(data);
    let n = v.len();
    proof {
        assert(v@.subrange(0, n as int) =~= v@);
    }
    match find_char(v.as_slice(), ':', 0, n) {
        Some(ci) => {
            let left = data.substring_char(0, ci);
            let right = data.substring_char(ci + 1, n);
            let ipo = get_identifier(left, start_col);
            let tso = get_typespec(right, start_col + ci + 1);
            let mut errors: Vec<InternalError> = Vec::new();
            extend_errors(&mut errors, &ipo.errors);
            extend_errors(&mut errors, &tso.errors);
            let out = MemberSpecParserOutput { identifier: ipo.identifier, typespec: Some(tso), errors };
            proof {
                assert(out@.errors =~= spec_memberspec(data@, start_col as int).errors);
            }
            out
        },
        None => {
            let (a, b) = trim_bounds(v.as_slice());
            let start_non_whitespace = match first_non_white(v.as_slice()) {
                Some(k) => start_col + k,
                None => start_col,
            };
            let trimmed = data.substring_char(a, b);
            let mut errors: Vec<InternalError> = Vec::new();
            errors.push(
                InternalError::Parsing {
                    offender: TokenClone::new(trimmed, start_non_whitespace),
                    reason: ParsingFailure::MissingIdSpecDelimiter,
                },
            );
            let out = MemberSpecParserOutput { identifier: None, typespec: None, errors };
            proof {
                assert(out@.errors =~= spec_memberspec(data@, start_col as int).errors);
            }
            out
        },
    }
}

/// The column of the member that starts at character `from` (just past a comma, or 0).
fn member_start(data: &str, from: usize) -> (start: usize)
    requires
        from <= data@.len(),
        from > 0 ==> data@[from - 1] == ',',
        encode_utf8(data@).len() <= usize::MAX,
    ensures
        start == section_start(data@, from as int),
        start + (data@.len() - from) <= encode_utf8(data@).len(),
{
    let ghost n = data@.len();
    let ghost rest = data@.subrange(from as int, n as int);
    proof {
        lemma_encode_utf8_len(rest);
    }
    if from == 0 {
        assert(rest =~= data@);
        0
    } else {
        let prefix = data.substring_char(0, from - 1);
        proof {
            let tail = data@.subrange(from - 1, n as int);
            lemma_encode_utf8_concat(prefix@, tail);
            assert(prefix@ + tail =~= data@);
            assert(tail =~= seq![','] + rest);
            lemma_encode_utf8_concat(seq![','], rest);
            lemma_encode_utf8_len(seq![',']);
        }
        prefix.len() + 1
    }
}

proof fn lemma_members_from_step(s: Seq<char>, from: int)
    requires
        0 <= from <= s.len(),
    ensures
        ({
            let rest = s.subrange(from, s.len() as int);
            match first_index(rest, ',') {
                None => members_from(s, from) == seq![spec_memberspec(rest, section_start(s, from))],
                Some(i) => 0 <= i < rest.len() && rest[i] == ',' && members_from(s, from) == seq![
                    spec_memberspec(rest.subrange(0, i), section_start(s, from)),
                ] + members_from(s, from + i + 1),
            }
        }),
{
    lemma_first_index_props(s.subrange(from, s.len() as int), ',');
}

/// All member specifications of a specification text, split at its commas.
pub fn get_metadataspec<'a>(data: &'a str) -> (out: MetadataSpecParserOutput<'a>)
    requires
        encode_utf8(data@).len() <= usize::MAX,
    ensures
        out@ == spec_metadataspec(data@),
{
    let v = chars_of(data);
    let n = v.len();
    let mut member_outputs: Vec<MemberSpecParserOutput<'a>> = Vec::new();
    if first_non_white(v.as_slice()).is_some() {
        let mut from: usize = 0;
        let mut done = false;
        while !done
            invariant
                n == data@.len(),
                v@ == data@,
                encode_utf8(data@).len() <= usize::MAX,
                from <= n,
                from > 0 ==> data@[from - 1] == ',',
                done ==> member_views(member_outputs@) == members_from(data@, 0),
                !done ==> members_from(data@, 0) == member_views(member_outputs@) + members_from(
                    data@,
                    from as int,
                ),
            decreases n - from + (if done { 0int } else { 1int }),
        {
            let ghost rest = data@.subrange(from as int, n as int);
            proof {
                assert(v@.subrange(from as int, n as int) =~= rest);
                lemma_members_from_step(data@, from as int);
            }
            let start = member_start(data, from);
            let ghost before = member_views(member_outputs@);
            match find_char(v.as_slice(), ',', from, n) {
                None => {
                    let section = data.substring_char(from, n);
                    let m = get_memberspec(section, start);
                    member_outputs.push(m);
                    assert(member_views(member_outputs@) =~= before + members_from(data@, from as int));
                    done = true;
                },
                Some(j) => {
                    let section = data.substring_char(from, j);
                    assert(section@ =~= rest.subrange(0, j - from));
                    let m = get_memberspec(section, start);
                    member_outputs.push(m);
                    assert(member_views(member_outputs@) =~= before.push(spec_memberspec(section@, start as int)));
                    assert(before + members_from(data@, from as int) =~= member_views(member_outputs@)
                        + members_from(data@, j + 1));
                    from = j + 1;
                },
            }
        }
    } else {
        assert(member_views(member_outputs@) =~= Seq::<MemberSpecV>::empty());
    }
    let ghost ms = member_views(member_outputs@);
    let mut errors: Vec<InternalError> = Vec::new();
    let mut i: usize = 0;
    while i < member_outputs.len()
        invariant
            i <= member_outputs@.len(),
            ms == member_views(member_outputs@),
            internal_views(errors@) == all_member_errors(ms.subrange(0, i as int)),
        decreases member_outputs.len() - i,
    {
        extend_errors(&mut errors, &member_outputs[i].errors);
        assert(ms.subrange(0, i + 1).drop_last() =~= ms.subrange(0, i as int));
        i = i + 1;
    }
    assert(ms.subrange(0, ms.len() as int) =~= ms);
    MetadataSpecParserOutput { member_outputs, errors }
}

/// A token lies in `data` (whose first character is at column `start`): its columns fall
/// within the text and its characters are the text's at those columns.
pub open spec fn located(t: TokenV, data: Seq<char>, start: int) -> bool {
    &&& start <= t.column_start <= t.column_end <= start + data.len()
    &&& t.data == data.subrange(t.column_start - start, t.column_end - start)
}

pub proof fn lemma_word_located(data: Seq<char>, start: int)
    ensures
        spec_word(data, start).token matches Some(t) ==> located(t, data, start),
{
    if !all_white(data) {
        crate::text::lemma_trim_bounds(data);
    }
}

pub proof fn lemma_sizing_located(data: Seq<char>, start: int)
    ensures
        spec_sizing(data, start).token matches Some(t) ==> located(t, data, start),
{
    if all_white(data) {
        assert(data.subrange(data.len() as int, data.len() as int) =~= Seq::<char>::empty());
    } else {
        lemma_word_located(data, start);
    }
}

proof fn lemma_located_in_part(t: TokenV, data: Seq<char>, from: int, to: int, start: int)
    requires
        0 <= from <= to <= data.len(),
        located(t, data.subrange(from, to), start + from),
    ensures
        located(t, data, start),
{
    assert(data.subrange(from, to).subrange(t.column_start - (start + from), t.column_end - (start + from))
        =~= data.subrange(t.column_start - start, t.column_end - start));
}

/// Law: every token that the parser gives of a member specification is the text at its
/// columns.
pub proof fn lemma_member_tokens_located(data: Seq<char>, start: int)
    ensures
        ({
            let m = spec_memberspec(data, start);
            &&& m.identifier matches Some(t) ==> located(t, data, start)
            &&& m.typespec matches Some(ts) ==> {
                &&& ts.dtype matches Some(t) ==> located(t, data, start)
                &&& ts.sizing matches Some(t) ==> located(t, data, start)
            }
        }),
{
    lemma_first_index_props(data, ':');
    match first_index(data, ':') {
        Some(ci) => {
            lemma_word_located(data.subrange(0, ci), start);
            if let Some(t) = spec_word(data.subrange(0, ci), start).token {
                lemma_located_in_part(t, data, 0, ci, start);
            }
            let r = data.subrange(ci + 1, data.len() as int);
            let rs = start + ci + 1;
            lemma_first_index_props(r, '[');
            match first_index(r, '[') {
                None => {
                    lemma_word_located(r, rs);
                    if let Some(t) = spec_word(r, rs).token {
                        lemma_located_in_part(t, data, ci + 1, data.len() as int, start);
                    }
                },
                Some(li) => {
                    lemma_word_located(r.subrange(0, li), rs);
                    if let Some(t) = spec_word(r.subrange(0, li), rs).token {
                        lemma_located_in_part(t, r, 0, li, rs);
                        lemma_located_in_part(t, data, ci + 1, data.len() as int, start);
                    }
                    let after = r.subrange(li + 1, r.len() as int);
                    lemma_first_index_props(after, ']');
                    if let Some(rb) = first_index(after, ']') {
                        lemma_sizing_located(after.subrange(0, rb), rs + li + 1);
                        if let Some(t) = spec_sizing(after.subrange(0, rb), rs + li + 1).token {
                            lemma_located_in_part(t, after, 0, rb, rs + li + 1);
                            lemma_located_in_part(t, r, li + 1, r.len() as int, rs);
                            lemma_located_in_part(t, data, ci + 1, data.len() as int, start);
                        }
                    }
                },
            }
        },
        None => {},
    }
}

/// `m` is what the member parser gives of the text `x` from some column.
pub open spec fn parsed_section(m: MemberSpecV, x: Seq<char>) -> bool {
    exists|c: int| #[trigger] spec_memberspec(x, c) == m
}

proof fn lemma_members_from_split(s: Seq<char>, from: int)
    requires
        0 <= from <= s.len(),
    ensures
        members_from(s, from).len() == split_on(s.subrange(from, s.len() as int), ',').len(),
        forall|i: int|
            0 <= i < members_from(s, from).len() ==> parsed_section(
                #[trigger] members_from(s, from)[i],
                split_on(s.subrange(from, s.len() as int), ',')[i],
            ),
    decreases s.len() - from,
{
    let rest = s.subrange(from, s.len() as int);
    lemma_first_index_props(rest, ',');
    let ms = members_from(s, from);
    let sp = split_on(rest, ',');
    match first_index(rest, ',') {
        None => {
            assert(ms[0] == spec_memberspec(sp[0], section_start(s, from)));
        },
        Some(k) => {
            let r = rest.subrange(k + 1, rest.len() as int);
            assert(s.subrange(from + k + 1, s.len() as int) =~= r);
            lemma_members_from_split(s, from + k + 1);
            let tail = members_from(s, from + k + 1);
            assert(ms == seq![spec_memberspec(rest.subrange(0, k), section_start(s, from))] + tail);
            assert(sp == seq![rest.subrange(0, k)] + split_on(r, ','));
            assert forall|i: int| 0 <= i < ms.len() implies parsed_section(#[trigger] ms[i], sp[i]) by {
                if i > 0 {
                    assert(ms[i] == tail[i - 1]);
                    assert(sp[i] == split_on(r, ',')[i - 1]);
                } else {
                    assert(ms[0] == spec_memberspec(sp[0], section_start(s, from)));
                }
            }
        },
    }
}

/// Law: a blank specification has no members; any other has one member output per
/// comma-separated section, in order, each what the member parser gives of its section; the
/// errors are those of the members, in order.
pub proof fn lemma_metadataspec_sections(s: Seq<char>)
    ensures
        all_white(s) ==> spec_metadataspec(s).member_outputs.len() == 0,
        !all_white(s) ==> spec_metadataspec(s).member_outputs.len() == split_on(s, ',').len(),
        !all_white(s) ==> forall|i: int|
            0 <= i < split_on(s, ',').len() ==> parsed_section(
                #[trigger] spec_metadataspec(s).member_outputs[i],
                split_on(s, ',')[i],
            ),
        spec_metadataspec(s).errors == all_member_errors(spec_metadataspec(s).member_outputs),
{
    if !all_white(s) {
        assert(s.subrange(0, s.len() as int) =~= s);
        lemma_members_from_split(s, 0);
    }
}

} // verus!
