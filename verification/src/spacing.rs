//! White space around the parts of a specification does not change what the specification
//! says, and the text of a member reads back as the member.
use vstd::prelude::*;
use crate::member::dtype::{dtype_name, lemma_dtype_name_round_trip, Dtype};
use crate::member::member_specification::{legal_sizing, member_text, sizing_text, MemberV};
use crate::member::sizing::Sizing;
use crate::error::{ElucidatorErrorV, InternalErrorV};
use crate::token::token_at;
use crate::designation::{designation_text, identifiers_distinct, spec_from_text};
use crate::error::join;
use crate::member::member_spacing::{lemma_member_text_read_by_from, lemma_type_text_chars, type_text};
use crate::specification::{
    count_name, member_report, section_name, section_names, sections, spec_metadata_from, spec_validate_designation,
    spec_validate_members, MetadataV,
};
use crate::parsing::{members_from, section_start, spec_memberspec, spec_metadataspec, spec_sizing, spec_typespec, spec_word, MemberSpecV, TypeSpecV};
use crate::text::{
    all_white, first_index, leading_white, lemma_first_index, lemma_first_index_props, lemma_leading_white,
    lemma_leading_white_props, lemma_trailing_white, lemma_trailing_white_props, lemma_trim_bounds,
    split_on, trailing_white, trim, white_space, decimal, digit_char, all_digits, digits_value, is_digit,
    ascii_alphanumeric, parse_u64, alphabetic, ascii_letter,
};
use crate::token::TokenV;
use crate::validating::{
    identifier_errors, spec_dtype_token, spec_identifier_token, spec_sizing_token, spec_validate_memberspec,
    spec_validate_metadataspec, validate_all, identifier_char, lemma_valid_identifier_shape,
    sorted_illegal_ident,
};

verus! {

/// The characters that separate the parts of a specification.
pub open spec fn delimiter(c: char) -> bool {
    c == ',' || c == ':' || c == '[' || c == ']'
}

/// White space that holds no delimiter.
pub open spec fn padding(w: Seq<char>) -> bool {
    &&& all_white(w)
    &&& forall|j: int| 0 <= j < w.len() ==> !delimiter(#[trigger] w[j])
}

/// The member that a parsed member specification validates to, if it validates.
pub open spec fn validated(m: MemberSpecV) -> Option<MemberV> {
    match spec_validate_memberspec(m) {
        Ok(v) => Some(v),
        Err(_) => None,
    }
}

/// The text of a token, if there is one.
pub open spec fn token_text(t: Option<TokenV>) -> Option<Seq<char>> {
    match t {
        Some(t) => Some(t.data),
        None => None,
    }
}

/// What a parsed type specification holds, without columns or errors.
pub open spec fn typespec_shape(t: TypeSpecV) -> (Option<Seq<char>>, Option<Seq<char>>, bool) {
    (token_text(t.dtype), token_text(t.sizing), t.is_singleton)
}

/// What a parsed member specification holds, without columns or errors.
pub open spec fn member_shape(m: MemberSpecV) -> (Option<Seq<char>>, Option<(Option<Seq<char>>, Option<Seq<char>>, bool)>) {
    (
        token_text(m.identifier),
        match m.typespec {
            Some(t) => Some(typespec_shape(t)),
            None => None,
        },
    )
}

#[verifier::spinoff_prover]
#[verifier::rlimit(40)]
proof fn lemma_all_white_concat(a: Seq<char>, b: Seq<char>)
    ensures
        all_white(a + b) == (all_white(a) && all_white(b)),
{
    if all_white(a) && all_white(b) {
        assert forall|j: int| 0 <= j < (a + b).len() implies white_space(#[trigger] (a + b)[j]) by {
            if j < a.len() {
                assert((a + b)[j] == a[j]);
            } else {
                assert((a + b)[j] == b[j - a.len()]);
            }
        }
    }
    if all_white(a + b) {
        assert forall|j: int| 0 <= j < a.len() implies white_space(#[trigger] a[j]) by {
            assert((a + b)[j] == a[j]);
        }
        assert forall|j: int| 0 <= j < b.len() implies white_space(#[trigger] b[j]) by {
            assert((a + b)[j + a.len()] == b[j]);
        }
    }
}

/// White space added at both ends changes neither whether a text is blank nor its trimmed text.
#[verifier::spinoff_prover]
#[verifier::rlimit(40)]
pub proof fn lemma_trim_padded(w1: Seq<char>, x: Seq<char>, w2: Seq<char>)
    requires
        all_white(w1),
        all_white(w2),
    ensures
        all_white(w1 + x + w2) == all_white(x),
        trim(w1 + x + w2) == trim(x),
{
    let s = w1 + x + w2;
    lemma_all_white_concat(w1, x);
    lemma_all_white_concat(w1 + x, w2);
    if !all_white(x) {
        lemma_leading_white_props(x);
        lemma_trailing_white_props(x);
        lemma_trim_bounds(x);
        let a = leading_white(x) as int;
        let b = trailing_white(x) as int;
        assert forall|j: int| 0 <= j < w1.len() + a implies white_space(#[trigger] s[j]) by {
            if j < w1.len() {
                assert(s[j] == w1[j]);
            } else {
                assert(s[j] == x[j - w1.len()]);
            }
        }
        assert(s[w1.len() + a] == x[a]);
        lemma_leading_white(s, w1.len() + a);
        assert forall|j: int| s.len() - (w2.len() + b) <= j < s.len() implies white_space(#[trigger] s[j]) by {
            if j >= w1.len() + x.len() {
                assert(s[j] == w2[j - w1.len() - x.len()]);
            } else {
                assert(s[j] == x[j - w1.len()]);
            }
        }
        assert(s[s.len() - (w2.len() + b) - 1] == x[x.len() - b - 1]);
        lemma_trailing_white(s, w2.len() + b);
        assert(s.subrange(w1.len() + a, s.len() - (w2.len() + b)) =~= x.subrange(a, x.len() - b));
    }
}

/// Characters put in front that are not `c` move its first occurrence along.
#[verifier::spinoff_prover]
#[verifier::rlimit(40)]
proof fn lemma_first_index_front(w: Seq<char>, x: Seq<char>, c: char)
    requires
        forall|j: int| 0 <= j < w.len() ==> #[trigger] w[j] != c,
    ensures
        first_index(w + x, c) == (match first_index(x, c) {
            Some(k) => Some(k + w.len()),
            None => None::<int>,
        }),
{
    let s = w + x;
    lemma_first_index_props(x, c);
    match first_index(x, c) {
        Some(k) => {
            assert forall|j: int| 0 <= j < w.len() + k implies #[trigger] s[j] != c by {
                if j < w.len() {
                    assert(s[j] == w[j]);
                } else {
                    assert(s[j] == x[j - w.len()]);
                }
            }
            assert(s[w.len() + k] == x[k]);
            lemma_first_index(s, c, w.len() + k);
        },
        None => {
            assert forall|j: int| 0 <= j < s.len() implies #[trigger] s[j] != c by {
                if j < w.len() {
                    assert(s[j] == w[j]);
                } else {
                    assert(s[j] == x[j - w.len()]);
                }
            }
            lemma_first_index(s, c, s.len() as int);
        },
    }
}

/// Characters put behind that are not `c` leave its first occurrence where it was.
#[verifier::spinoff_prover]
#[verifier::rlimit(40)]
proof fn lemma_first_index_back(x: Seq<char>, w: Seq<char>, c: char)
    requires
        forall|j: int| 0 <= j < w.len() ==> #[trigger] w[j] != c,
    ensures
        first_index(x + w, c) == first_index(x, c),
{
    let s = x + w;
    lemma_first_index_props(x, c);
    match first_index(x, c) {
        Some(k) => {
            assert forall|j: int| 0 <= j < k implies #[trigger] s[j] != c by {
                assert(s[j] == x[j]);
            }
            assert(s[k] == x[k]);
            lemma_first_index(s, c, k);
        },
        None => {
            assert forall|j: int| 0 <= j < s.len() implies #[trigger] s[j] != c by {
                if j < x.len() {
                    assert(s[j] == x[j]);
                } else {
                    assert(s[j] == w[j - x.len()]);
                }
            }
            lemma_first_index(s, c, s.len() as int);
        },
    }
}

/// The word of a text padded with white space is the word of the text, wherever it starts.
#[verifier::spinoff_prover]
#[verifier::rlimit(40)]
proof fn lemma_word_padded(w1: Seq<char>, x: Seq<char>, w2: Seq<char>, s1: int, s2: int)
    requires
        all_white(w1),
        all_white(w2),
    ensures
        token_text(spec_word(w1 + x + w2, s1).token) == token_text(spec_word(x, s2).token),
{
    lemma_trim_padded(w1, x, w2);
}

/// A type specification with white space behind it holds what it held.
#[verifier::spinoff_prover]
#[verifier::rlimit(40)]
proof fn lemma_typespec_padded(y: Seq<char>, w: Seq<char>, s1: int, s2: int)
    requires
        padding(w),
    ensures
        typespec_shape(spec_typespec(y + w, s1)) == typespec_shape(spec_typespec(y, s2)),
{
    let p = y + w;
    lemma_first_index_back(y, w, '[');
    match first_index(y, '[') {
        None => {
            assert(p =~= Seq::<char>::empty() + y + w);
            assert(y =~= Seq::<char>::empty() + y + Seq::<char>::empty());
            lemma_word_padded(Seq::<char>::empty(), y, w, s1, s2);
        },
        Some(li) => {
            lemma_first_index_props(y, '[');
            assert(p.subrange(0, li) =~= y.subrange(0, li));
            let a1 = y.subrange(li + 1, y.len() as int);
            let a2 = p.subrange(li + 1, p.len() as int);
            assert(a2 =~= a1 + w);
            lemma_first_index_back(a1, w, ']');
            match first_index(a1, ']') {
                Some(rb) => {
                    lemma_first_index_props(a1, ']');
                    assert(a2.subrange(0, rb) =~= a1.subrange(0, rb));
                    let z = a1.subrange(0, rb);
                    assert(z =~= Seq::<char>::empty() + z + Seq::<char>::empty());
                    lemma_word_padded(Seq::<char>::empty(), z, Seq::<char>::empty(), s1 + li + 1, s2 + li + 1);
                },
                None => {},
            }
        },
    }
}

/// White space (holding no delimiter) added at both ends of a member's text changes nothing of
/// what it validates to, nor does the column it starts at.
#[verifier::spinoff_prover]
#[verifier::rlimit(40)]
proof fn lemma_member_padded(w1: Seq<char>, x: Seq<char>, w2: Seq<char>, s1: int, s2: int)
    requires
        padding(w1),
        padding(w2),
    ensures
        validated(spec_memberspec(w1 + x + w2, s1)) == validated(spec_memberspec(x, s2)),
{
    lemma_member_shape_padded(w1, x, w2, s1, s2);
    lemma_shape_validated(spec_memberspec(w1 + x + w2, s1), spec_memberspec(x, s2));
}

#[verifier::spinoff_prover]
#[verifier::rlimit(40)]
proof fn lemma_member_shape_padded(w1: Seq<char>, x: Seq<char>, w2: Seq<char>, s1: int, s2: int)
    requires
        padding(w1),
        padding(w2),
    ensures
        member_shape(spec_memberspec(w1 + x + w2, s1)) == member_shape(spec_memberspec(x, s2)),
{
    let p = w1 + x + w2;
    assert(p =~= w1 + (x + w2));
    lemma_first_index_back(x, w2, ':');
    lemma_first_index_front(w1, x + w2, ':');
    match first_index(x, ':') {
        None => {},
        Some(ci) => {
            lemma_first_index_props(x, ':');
            let id = x.subrange(0, ci);
            assert(p.subrange(0, w1.len() + ci) =~= w1 + id + Seq::<char>::empty());
            lemma_word_padded(w1, id, Seq::<char>::empty(), s1, s2);
            let ty = x.subrange(ci + 1, x.len() as int);
            assert(p.subrange(w1.len() + ci + 1, p.len() as int) =~= ty + w2);
            lemma_typespec_padded(ty, w2, s1 + w1.len() + ci + 1, s2 + ci + 1);
        },
    }
}

/// Whether a parsed member validates, and to what, depends on the texts of its tokens alone.
#[verifier::spinoff_prover]
#[verifier::rlimit(40)]
proof fn lemma_shape_validated(m1: MemberSpecV, m2: MemberSpecV)
    requires
        member_shape(m1) == member_shape(m2),
    ensures
        validated(m1) == validated(m2),
{
    match (m1.identifier, m2.identifier) {
        (Some(t1), Some(t2)) => lemma_identifier_by_text(t1, t2),
        _ => {},
    }
    match (m1.typespec, m2.typespec) {
        (Some(a), Some(b)) => {
            match (a.dtype, b.dtype) {
                (Some(t1), Some(t2)) => lemma_dtype_by_text(t1, t2),
                _ => {},
            }
            match (a.sizing, b.sizing) {
                (Some(t1), Some(t2)) => lemma_sizing_by_text(t1, t2),
                _ => {},
            }
        },
        _ => {},
    }
}

#[verifier::spinoff_prover]
#[verifier::rlimit(40)]
proof fn lemma_identifier_by_text(t1: TokenV, t2: TokenV)
    requires
        t1.data == t2.data,
    ensures
        spec_identifier_token(t1) is Ok == spec_identifier_token(t2) is Ok,
        spec_identifier_token(t1) is Ok ==> spec_identifier_token(t1) == spec_identifier_token(t2),
{
    assert(identifier_errors(t1).len() == identifier_errors(t2).len());
}

#[verifier::spinoff_prover]
#[verifier::rlimit(40)]
proof fn lemma_dtype_by_text(t1: TokenV, t2: TokenV)
    requires
        t1.data == t2.data,
    ensures
        spec_dtype_token(t1) is Ok == spec_dtype_token(t2) is Ok,
        spec_dtype_token(t1) is Ok ==> spec_dtype_token(t1) == spec_dtype_token(t2),
{
}

#[verifier::spinoff_prover]
#[verifier::rlimit(40)]
proof fn lemma_sizing_by_text(t1: TokenV, t2: TokenV)
    requires
        t1.data == t2.data,
    ensures
        spec_sizing_token(t1) is Ok == spec_sizing_token(t2) is Ok,
        spec_sizing_token(t1) is Ok ==> spec_sizing_token(t1) == spec_sizing_token(t2),
{
}

/// The type part `b` of a member with white space put in at its joints: `ws[3]` before the first
/// `[` (at the end when there is none), `ws[4]` after it, and `ws[5]` before the first `]` after
/// it (at the end when there is none).
pub open spec fn respaced_type(b: Seq<char>, ws: Seq<Seq<char>>) -> Seq<char> {
    match first_index(b, '[') {
        None => b + ws[3],
        Some(li) => {
            let c = b.subrange(0, li);
            let d = b.subrange(li + 1, b.len() as int);
            c + ws[3] + seq!['['] + ws[4] + match first_index(d, ']') {
                None => d + ws[5],
                Some(rb) => d.subrange(0, rb) + ws[5] + d.subrange(rb, d.len() as int),
            }
        },
    }
}

/// The text `x` of a member with white space put in at its joints: `ws[0]` at its start,
/// `ws[1]` and `ws[2]` before and after its first `:`, those of `respaced_type` in the type part
/// after that colon, and `ws[6]` at its end.
pub open spec fn respaced(x: Seq<char>, ws: Seq<Seq<char>>) -> Seq<char> {
    match first_index(x, ':') {
        None => ws[0] + x + ws[6],
        Some(ci) => ws[0] + x.subrange(0, ci) + ws[1] + seq![':'] + ws[2] + respaced_type(
            x.subrange(ci + 1, x.len() as int),
            ws,
        ) + ws[6],
    }
}

/// Seven stretches of white space, none holding a delimiter.
pub open spec fn paddings(ws: Seq<Seq<char>>) -> bool {
    &&& ws.len() == 7
    &&& forall|j: int| 0 <= j < 7 ==> padding(#[trigger] ws[j])
}

#[verifier::spinoff_prover]
#[verifier::rlimit(40)]
pub proof fn lemma_first_at(u: Seq<char>, v: Seq<char>, c: char)
    requires
        forall|j: int| 0 <= j < u.len() ==> #[trigger] u[j] != c,
    ensures
        first_index(u + seq![c] + v, c) == Some(u.len() as int),
{
    let s = u + seq![c] + v;
    assert forall|j: int| 0 <= j < u.len() implies #[trigger] s[j] != c by {
        assert(s[j] == u[j]);
    }
    assert(s[u.len() as int] == c);
    lemma_first_index(s, c, u.len() as int);
}

#[verifier::spinoff_prover]
#[verifier::rlimit(40)]
proof fn lemma_no_delimiter_concat(a: Seq<char>, b: Seq<char>, c: char)
    requires
        forall|j: int| 0 <= j < a.len() ==> #[trigger] a[j] != c,
        forall|j: int| 0 <= j < b.len() ==> #[trigger] b[j] != c,
    ensures
        forall|j: int| 0 <= j < (a + b).len() ==> #[trigger] (a + b)[j] != c,
{
    assert forall|j: int| 0 <= j < (a + b).len() implies #[trigger] (a + b)[j] != c by {
        if j < a.len() {
            assert((a + b)[j] == a[j]);
        } else {
            assert((a + b)[j] == b[j - a.len()]);
        }
    }
}

#[verifier::spinoff_prover]
#[verifier::rlimit(40)]
proof fn lemma_padding_lacks(w: Seq<char>, c: char)
    requires
        padding(w),
        delimiter(c),
    ensures
        forall|j: int| 0 <= j < w.len() ==> #[trigger] w[j] != c,
{
    assert forall|j: int| 0 <= j < w.len() implies #[trigger] w[j] != c by {
        assert(!delimiter(w[j]));
    }
}

/// The sizing read between white space is the sizing read without it.
#[verifier::spinoff_prover]
#[verifier::rlimit(40)]
proof fn lemma_sizing_padded(w1: Seq<char>, x: Seq<char>, w2: Seq<char>, s1: int, s2: int)
    requires
        all_white(w1),
        all_white(w2),
    ensures
        token_text(spec_sizing(w1 + x + w2, s1).token) == token_text(spec_sizing(x, s2).token),
{
    lemma_trim_padded(w1, x, w2);
}

/// A respaced type part holds what the type part held.
#[verifier::spinoff_prover]
#[verifier::rlimit(40)]
proof fn lemma_typespec_respaced(b: Seq<char>, ws: Seq<Seq<char>>, s1: int, s2: int)
    requires
        paddings(ws),
    ensures
        typespec_shape(spec_typespec(ws[2] + respaced_type(b, ws), s1)) == typespec_shape(spec_typespec(b, s2)),
{
    let w2 = ws[2];
    let w3 = ws[3];
    let w4 = ws[4];
    let w5 = ws[5];
    assert(padding(w2) && padding(w3) && padding(w4) && padding(w5));
    lemma_padding_lacks(w2, '[');
    lemma_padding_lacks(w3, '[');
    lemma_padding_lacks(w4, ']');
    lemma_padding_lacks(w5, ']');
    lemma_first_index_props(b, '[');
    let p = w2 + respaced_type(b, ws);
    match first_index(b, '[') {
        None => {
            assert(p =~= w2 + b + w3);
            lemma_no_delimiter_concat(w2, b, '[');
            lemma_no_delimiter_concat(w2 + b, w3, '[');
            lemma_first_index(p, '[', p.len() as int);
            lemma_word_padded(w2, b, w3, s1, s2);
        },
        Some(li) => {
            let c = b.subrange(0, li);
            let d = b.subrange(li + 1, b.len() as int);
            let u = w2 + c + w3;
            lemma_no_delimiter_concat(w2, c, '[');
            lemma_no_delimiter_concat(w2 + c, w3, '[');
            lemma_first_index_props(d, ']');
            let tail = match first_index(d, ']') {
                None => d + w5,
                Some(rb) => d.subrange(0, rb) + w5 + d.subrange(rb, d.len() as int),
            };
            assert(p =~= u + seq!['['] + (w4 + tail));
            lemma_first_at(u, w4 + tail, '[');
            assert(p.subrange(0, u.len() as int) =~= u);
            lemma_word_padded(w2, c, w3, s1, s2);
            let a2 = p.subrange(u.len() as int + 1, p.len() as int);
            assert(a2 =~= w4 + tail);
            assert(b.subrange(0, li) == c);
            match first_index(d, ']') {
                None => {
                    lemma_no_delimiter_concat(w4, d, ']');
                    lemma_no_delimiter_concat(w4 + d, w5, ']');
                    assert(a2 =~= w4 + d + w5);
                    lemma_first_index(a2, ']', a2.len() as int);
                },
                Some(rb) => {
                    let e = d.subrange(0, rb);
                    let f = d.subrange(rb + 1, d.len() as int);
                    assert(d.subrange(rb, d.len() as int) =~= seq![']'] + f);
                    let v = w4 + e + w5;
                    lemma_no_delimiter_concat(w4, e, ']');
                    lemma_no_delimiter_concat(w4 + e, w5, ']');
                    assert(a2 =~= v + seq![']'] + f);
                    lemma_first_at(v, f, ']');
                    assert(a2.subrange(0, v.len() as int) =~= v);
                    assert(d.subrange(0, rb) == e);
                    lemma_sizing_padded(w4, e, w5, s1 + u.len() + 1, s2 + li + 1);
                },
            }
        },
    }
}

#[verifier::spinoff_prover]
#[verifier::rlimit(40)]
proof fn lemma_member_shape_respaced(x: Seq<char>, ws: Seq<Seq<char>>, s1: int, s2: int)
    requires
        paddings(ws),
    ensures
        member_shape(spec_memberspec(respaced(x, ws), s1)) == member_shape(spec_memberspec(x, s2)),
{
    let w0 = ws[0];
    let w1 = ws[1];
    let w6 = ws[6];
    assert(padding(w0) && padding(w1) && padding(ws[2]) && padding(w6));
    lemma_first_index_props(x, ':');
    match first_index(x, ':') {
        None => {
            lemma_member_shape_padded(w0, x, w6, s1, s2);
        },
        Some(ci) => {
            let a = x.subrange(0, ci);
            let b = x.subrange(ci + 1, x.len() as int);
            let u = w0 + a + w1;
            let t = ws[2] + respaced_type(b, ws);
            lemma_padding_lacks(w0, ':');
            lemma_padding_lacks(w1, ':');
            lemma_no_delimiter_concat(w0, a, ':');
            lemma_no_delimiter_concat(w0 + a, w1, ':');
            let r = respaced(x, ws);
            assert(r =~= u + seq![':'] + (t + w6));
            lemma_first_at(u, t + w6, ':');
            assert(r.subrange(0, u.len() as int) =~= u);
            lemma_word_padded(w0, a, w1, s1, s2);
            assert(r.subrange(u.len() as int + 1, r.len() as int) =~= t + w6);
            lemma_typespec_padded(t, w6, s1 + u.len() + 1, s1 + u.len() + 1);
            lemma_typespec_respaced(b, ws, s1 + u.len() + 1, s2 + ci + 1);
        },
    }
}

/// Law: white space (holding no delimiter) put in at the joints of a member's text (at its
/// ends, around its first colon, and around the brackets of its type) does not change the
/// member it validates to, nor whether it validates; nor does the column it starts at.
#[verifier::spinoff_prover]
#[verifier::rlimit(40)]
pub proof fn lemma_member_respaced(x: Seq<char>, ws: Seq<Seq<char>>, s1: int, s2: int)
    requires
        paddings(ws),
    ensures
        validated(spec_memberspec(respaced(x, ws), s1)) == validated(spec_memberspec(x, s2)),
{
    lemma_member_shape_respaced(x, ws, s1, s2);
    lemma_shape_validated(spec_memberspec(respaced(x, ws), s1), spec_memberspec(x, s2));
}

#[verifier::spinoff_prover]
#[verifier::rlimit(40)]
proof fn lemma_all_white_respaced_type(b: Seq<char>, ws: Seq<Seq<char>>)
    requires
        paddings(ws),
    ensures
        all_white(respaced_type(b, ws)) == all_white(b),
{
    let w3 = ws[3];
    let w4 = ws[4];
    let w5 = ws[5];
    assert(padding(w3) && padding(w4) && padding(w5));
    lemma_first_index_props(b, '[');
    match first_index(b, '[') {
        None => {
            lemma_all_white_concat(b, w3);
        },
        Some(li) => {
            let c = b.subrange(0, li);
            let d = b.subrange(li + 1, b.len() as int);
            let o = seq!['['];
            assert(b =~= c + o + d);
            lemma_all_white_concat(c, o);
            lemma_all_white_concat(c + o, d);
            lemma_first_index_props(d, ']');
            let tail = match first_index(d, ']') {
                None => d + w5,
                Some(rb) => d.subrange(0, rb) + w5 + d.subrange(rb, d.len() as int),
            };
            match first_index(d, ']') {
                None => {
                    lemma_all_white_concat(d, w5);
                },
                Some(rb) => {
                    let e = d.subrange(0, rb);
                    let f = d.subrange(rb, d.len() as int);
                    assert(d =~= e + f);
                    lemma_all_white_concat(e, f);
                    lemma_all_white_concat(e, w5);
                    lemma_all_white_concat(e + w5, f);
                },
            }
            assert(all_white(tail) == all_white(d));
            lemma_all_white_concat(c, w3);
            lemma_all_white_concat(c + w3, o);
            lemma_all_white_concat(c + w3 + o, w4);
            lemma_all_white_concat(c + w3 + o + w4, tail);
        },
    }
}

/// Respacing a member's text changes nothing about whether it is blank.
#[verifier::spinoff_prover]
#[verifier::rlimit(40)]
proof fn lemma_all_white_respaced(x: Seq<char>, ws: Seq<Seq<char>>)
    requires
        paddings(ws),
    ensures
        all_white(respaced(x, ws)) == all_white(x),
{
    let w0 = ws[0];
    let w1 = ws[1];
    let w2 = ws[2];
    let w6 = ws[6];
    assert(padding(w0) && padding(w1) && padding(w2) && padding(w6));
    lemma_first_index_props(x, ':');
    match first_index(x, ':') {
        None => {
            lemma_trim_padded(w0, x, w6);
        },
        Some(ci) => {
            let a = x.subrange(0, ci);
            let b = x.subrange(ci + 1, x.len() as int);
            let o = seq![':'];
            let t = respaced_type(b, ws);
            assert(x =~= a + o + b);
            lemma_all_white_concat(a, o);
            lemma_all_white_concat(a + o, b);
            lemma_all_white_respaced_type(b, ws);
            lemma_all_white_concat(w0, a);
            lemma_all_white_concat(w0 + a, w1);
            lemma_all_white_concat(w0 + a + w1, o);
            lemma_all_white_concat(w0 + a + w1 + o, w2);
            lemma_all_white_concat(w0 + a + w1 + o + w2, t);
            lemma_all_white_concat(w0 + a + w1 + o + w2 + t, w6);
        },
    }
}

/// The column a member starts at does not change what it validates to.
#[verifier::spinoff_prover]
#[verifier::rlimit(40)]
proof fn lemma_column_free(x: Seq<char>, a: int, b: int)
    ensures
        validated(spec_memberspec(x, a)) == validated(spec_memberspec(x, b)),
{
    let e = Seq::<char>::empty();
    assert(x =~= e + x + e);
    lemma_member_padded(e, x, e, a, b);
}

/// Validating, in order, parsed members that validate alike gives the same members and as many
/// errors.
#[verifier::spinoff_prover]
#[verifier::rlimit(40)]
proof fn lemma_validate_all_alike(ms1: Seq<MemberSpecV>, ms2: Seq<MemberSpecV>)
    requires
        ms1.len() == ms2.len(),
        forall|i: int| 0 <= i < ms1.len() ==> validated(#[trigger] ms1[i]) == validated(ms2[i]),
    ensures
        validate_all(ms1).0 == validate_all(ms2).0,
        validate_all(ms1).1.len() == validate_all(ms2).1.len(),
    decreases ms1.len(),
{
    if ms1.len() > 0 {
        let d1 = ms1.drop_last();
        let d2 = ms2.drop_last();
        assert forall|i: int| 0 <= i < d1.len() implies validated(#[trigger] d1[i]) == validated(d2[i]) by {
            assert(d1[i] == ms1[i]);
            assert(d2[i] == ms2[i]);
            assert(validated(ms1[i]) == validated(ms2[i]));
        }
        lemma_validate_all_alike(d1, d2);
        assert(validated(ms1.last()) == validated(ms2.last())) by {
            assert(validated(ms1[ms1.len() - 1]) == validated(ms2[ms2.len() - 1]));
        }
    }
}

/// The members parsed from character `from` on are, one for one, those of the comma-separated
/// sections of the rest of the text, up to their columns.
#[verifier::spinoff_prover]
#[verifier::rlimit(40)]
proof fn lemma_members_from_sections(s: Seq<char>, from: int)
    requires
        0 <= from <= s.len(),
    ensures
        members_from(s, from).len() == split_on(s.subrange(from, s.len() as int), ',').len(),
        forall|i: int|
            0 <= i < members_from(s, from).len() ==> validated(#[trigger] members_from(s, from)[i]) == validated(
                spec_memberspec(split_on(s.subrange(from, s.len() as int), ',')[i], 0),
            ),
    decreases s.len() - from,
{
    let rest = s.subrange(from, s.len() as int);
    lemma_first_index_props(rest, ',');
    match first_index(rest, ',') {
        None => {
            lemma_column_free(rest, section_start(s, from), 0);
        },
        Some(k) => {
            let r = rest.subrange(k + 1, rest.len() as int);
            assert(s.subrange(from + k + 1, s.len() as int) =~= r);
            lemma_members_from_sections(s, from + k + 1);
            lemma_column_free(rest.subrange(0, k), section_start(s, from), 0);
            let ms = members_from(s, from);
            let tail = members_from(s, from + k + 1);
            let sp = split_on(rest, ',');
            assert(ms == seq![spec_memberspec(rest.subrange(0, k), section_start(s, from))] + tail);
            assert(sp == seq![rest.subrange(0, k)] + split_on(r, ','));
            assert forall|i: int| 0 <= i < ms.len() implies validated(#[trigger] ms[i]) == validated(
                spec_memberspec(sp[i], 0),
            ) by {
                if i > 0 {
                    assert(ms[i] == tail[i - 1]);
                    assert(sp[i] == split_on(r, ',')[i - 1]);
                }
            }
        },
    }
}

#[verifier::spinoff_prover]
#[verifier::rlimit(40)]
proof fn lemma_split_nonempty(s: Seq<char>, c: char)
    ensures
        split_on(s, c).len() >= 1,
{
    lemma_first_index_props(s, c);
}

/// A text is blank exactly when each of its sections is, and, if it has more than one, the
/// separator is white space too.
#[verifier::spinoff_prover]
#[verifier::rlimit(40)]
proof fn lemma_all_white_sections(s: Seq<char>, c: char)
    ensures
        all_white(s) == ((forall|i: int| 0 <= i < split_on(s, c).len() ==> all_white(#[trigger] split_on(s, c)[i]))
            && (split_on(s, c).len() > 1 ==> white_space(c))),
    decreases s.len(),
{
    lemma_first_index_props(s, c);
    match first_index(s, c) {
        None => {
            let sp = split_on(s, c);
            assert(sp == seq![s]);
            if all_white(s) {
                assert forall|i: int| 0 <= i < sp.len() implies all_white(#[trigger] sp[i]) by {
                    assert(sp[i] == s);
                }
            } else {
                assert(sp[0] == s);
            }
        },
        Some(k) => {
            let h = s.subrange(0, k);
            let r = s.subrange(k + 1, s.len() as int);
            lemma_all_white_sections(r, c);
            lemma_split_nonempty(r, c);
            assert(s =~= h + seq![c] + r);
            lemma_all_white_concat(h, seq![c]);
            lemma_all_white_concat(h + seq![c], r);
            assert(all_white(seq![c]) == white_space(c)) by {
                assert(seq![c][0] == c);
            }
            let sp = split_on(s, c);
            let sr = split_on(r, c);
            assert(sp == seq![h] + sr);
            if all_white(s) {
                assert forall|i: int| 0 <= i < sp.len() implies all_white(#[trigger] sp[i]) by {
                    if i > 0 {
                        assert(sp[i] == sr[i - 1]);
                    }
                }
            }
            if (forall|i: int| 0 <= i < sp.len() ==> all_white(#[trigger] sp[i])) {
                assert(sp[0] == h);
                assert(all_white(sp[0]));
                assert forall|i: int| 0 <= i < sr.len() implies all_white(#[trigger] sr[i]) by {
                    assert(sp[i + 1] == sr[i]);
                    assert(all_white(sp[i + 1]));
                }
            }
        },
    }
}

/// Each comma-separated section of `t2` is the section of `t1` at the same place, respaced by
/// the white space of `spaces` at that place.
pub open spec fn respaced_sections(t1: Seq<char>, t2: Seq<char>, spaces: Seq<Seq<Seq<char>>>) -> bool {
    &&& split_on(t2, ',').len() == split_on(t1, ',').len()
    &&& spaces.len() == split_on(t1, ',').len()
    &&& forall|i: int|
        0 <= i < spaces.len() ==> paddings(#[trigger] spaces[i]) && split_on(t2, ',')[i] == respaced(
            split_on(t1, ',')[i],
            spaces[i],
        )
}

#[verifier::spinoff_prover]
#[verifier::rlimit(40)]
proof fn lemma_respaced_blank(t1: Seq<char>, t2: Seq<char>, spaces: Seq<Seq<Seq<char>>>)
    requires
        respaced_sections(t1, t2, spaces),
    ensures
        all_white(t1) == all_white(t2),
{
    let p1 = split_on(t1, ',');
    let p2 = split_on(t2, ',');
    lemma_all_white_sections(t1, ',');
    lemma_all_white_sections(t2, ',');
    assert(spaces.len() == p1.len());
    assert forall|i: int| 0 <= i < p1.len() implies all_white(#[trigger] p1[i]) == all_white(p2[i]) by {
        assert(0 <= i < spaces.len());
        assert(paddings(spaces[i]) && p2[i] == respaced(p1[i], spaces[i]));
        lemma_all_white_respaced(p1[i], spaces[i]);
    }
    if all_white(t1) {
        assert forall|i: int| 0 <= i < p2.len() implies all_white(#[trigger] p2[i]) by {
            assert(all_white(p1[i]));
        }
    }
    if all_white(t2) {
        assert forall|i: int| 0 <= i < p1.len() implies all_white(#[trigger] p1[i]) by {
            assert(all_white(p2[i]));
        }
    }
}

#[verifier::spinoff_prover]
#[verifier::rlimit(40)]
proof fn lemma_respaced_members(t1: Seq<char>, t2: Seq<char>, spaces: Seq<Seq<Seq<char>>>)
    requires
        respaced_sections(t1, t2, spaces),
    ensures
        members_from(t1, 0).len() == members_from(t2, 0).len(),
        forall|i: int|
            0 <= i < members_from(t1, 0).len() ==> validated(#[trigger] members_from(t1, 0)[i]) == validated(
                members_from(t2, 0)[i],
            ),
{
    let p1 = split_on(t1, ',');
    let p2 = split_on(t2, ',');
    let ms1 = members_from(t1, 0);
    let ms2 = members_from(t2, 0);
    assert(t1.subrange(0, t1.len() as int) =~= t1);
    assert(t2.subrange(0, t2.len() as int) =~= t2);
    lemma_members_from_sections(t1, 0);
    lemma_members_from_sections(t2, 0);
    assert(ms1.len() == p1.len());
    assert(ms2.len() == p2.len());
    assert forall|i: int| 0 <= i < ms1.len() implies validated(#[trigger] ms1[i]) == validated(ms2[i]) by {
        assert(0 <= i < spaces.len());
        assert(paddings(spaces[i]) && p2[i] == respaced(p1[i], spaces[i]));
        lemma_member_respaced(p1[i], spaces[i], 0, 0);
        assert(validated(ms1[i]) == validated(spec_memberspec(p1[i], 0)));
        assert(validated(ms2[i]) == validated(spec_memberspec(p2[i], 0)));
    }
}

/// Law: white space is ignored around the parts of a specification. When each comma-separated
/// section of `t2` is the section of `t1` at the same place with white space (holding no
/// delimiter) put in at its ends, around its first colon and around the brackets of its type,
/// `t2` is valid exactly when `t1` is, and then with the same members.
#[verifier::spinoff_prover]
#[verifier::rlimit(40)]
pub proof fn lemma_white_space_ignored(t1: Seq<char>, t2: Seq<char>, spaces: Seq<Seq<Seq<char>>>)
    requires
        respaced_sections(t1, t2, spaces),
    ensures
        spec_from_text(t1) is Ok <==> spec_from_text(t2) is Ok,
        spec_from_text(t1) is Ok ==> spec_from_text(t1) == spec_from_text(t2),
{
    lemma_respaced_blank(t1, t2, spaces);
    let ms1 = spec_metadataspec(t1).member_outputs;
    let ms2 = spec_metadataspec(t2).member_outputs;
    if !all_white(t1) {
        lemma_respaced_members(t1, t2, spaces);
        assert(ms1 == members_from(t1, 0));
        assert(ms2 == members_from(t2, 0));
    }
    lemma_validate_all_alike(ms1, ms2);
}

/// A character that is neither white space nor a delimiter.
pub open spec fn plain(c: char) -> bool {
    !white_space(c) && !delimiter(c)
}

pub open spec fn all_plain(s: Seq<char>) -> bool {
    forall|j: int| 0 <= j < s.len() ==> plain(#[trigger] s[j])
}

#[verifier::spinoff_prover]
#[verifier::rlimit(40)]
pub proof fn lemma_plain_lacks(s: Seq<char>, c: char)
    requires
        all_plain(s),
        delimiter(c),
    ensures
        forall|j: int| 0 <= j < s.len() ==> #[trigger] s[j] != c,
{
    assert forall|j: int| 0 <= j < s.len() implies #[trigger] s[j] != c by {
        assert(plain(s[j]));
    }
}

/// A nonempty text of plain characters is its own word.
#[verifier::spinoff_prover]
#[verifier::rlimit(40)]
pub proof fn lemma_plain_trim(s: Seq<char>)
    requires
        all_plain(s),
        s.len() > 0,
    ensures
        !all_white(s),
        trim(s) == s,
{
    assert(plain(s[0]));
    assert(plain(s[s.len() - 1]));
    lemma_leading_white(s, 0);
    lemma_trailing_white(s, 0);
    assert(s.subrange(0, s.len() as int) =~= s);
}

/// The decimal notation of a number: plain digits, not starting with `+`, that read back as
/// the number.
#[verifier::spinoff_prover]
#[verifier::rlimit(40)]
pub proof fn lemma_decimal_digits(n: nat)
    ensures
        decimal(n).len() > 0,
        all_plain(decimal(n)),
        all_digits(decimal(n)),
        digits_value(decimal(n)) == n,
        decimal(n)[0] != '+',
    decreases n,
{
    if n < 10 {
        let d = decimal(n);
        assert(d == seq![digit_char(n)]);
        assert(d[0] == digit_char(n));
        assert(d.drop_last() =~= Seq::<char>::empty());
        assert((digit_char(n) as u32) == 48 + n);
        assert(d.last() == digit_char(n));
        assert(digits_value(d.drop_last()) == 0);
        assert(is_digit(d[0]));
    } else {
        lemma_decimal_digits(n / 10);
        let p = decimal(n / 10);
        let d = decimal(n);
        assert(d == p.push(digit_char(n % 10)));
        assert(d.drop_last() =~= p);
        assert(d[0] == p[0]);
        assert forall|j: int| 0 <= j < d.len() implies plain(#[trigger] d[j]) && is_digit(d[j]) by {
            if j < p.len() {
                assert(d[j] == p[j]);
                assert(plain(p[j]));
                assert(is_digit(p[j]));
            }
        }
        assert((digit_char(n % 10) as u32) == 48 + n % 10);
        assert(d.last() == digit_char(n % 10));
        assert(digits_value(d) == digits_value(p) * 10 + ((d.last() as u32) - 48) as nat);
        assert(n == (n / 10) * 10 + n % 10);
    }
}

#[verifier::spinoff_prover]
#[verifier::rlimit(40)]
pub proof fn lemma_name_plain(d: Dtype)
    ensures
        dtype_name(d).len() > 0,
        all_plain(dtype_name(d)),
{
    let t = dtype_name(d);
    assert forall|j: int| 0 <= j < t.len() implies plain(#[trigger] t[j]) by {
        assert(ascii_alphanumeric(t[j]));
    }
}

/// The data type part `" name"` of a member's text: its word is the name, which names the data
/// type, and it holds no `[`.
#[verifier::spinoff_prover]
#[verifier::rlimit(40)]
proof fn lemma_name_part(d: Dtype, st: int)
    ensures
        spec_word(seq![' '] + dtype_name(d), st).token matches Some(t) && t.data == dtype_name(d)
            && spec_dtype_token(t) == Ok::<Dtype, InternalErrorV>(d),
        forall|j: int|
            0 <= j < (seq![' '] + dtype_name(d)).len() ==> #[trigger] (seq![' '] + dtype_name(d))[j] != '[',
{
    let name = dtype_name(d);
    lemma_name_plain(d);
    lemma_plain_trim(name);
    lemma_dtype_name_round_trip(d);
    let sp = seq![' '];
    assert(all_white(sp)) by {
        assert(sp[0] == ' ');
    }
    let e = Seq::<char>::empty();
    let u = sp + name;
    assert(u =~= sp + name + e);
    lemma_trim_padded(sp, name, e);
    lemma_plain_lacks(name, '[');
    assert forall|j: int| 0 <= j < u.len() implies #[trigger] u[j] != '[' by {
        if j > 0 {
            assert(u[j] == name[j - 1]);
        }
    }
}

/// The type part `" name" + sizing` of a member's text reads as that data type and sizing.
#[verifier::spinoff_prover]
#[verifier::rlimit(40)]
proof fn lemma_type_text_reads_back(d: Dtype, sz: Sizing, st: int)
    requires
        sz != Sizing::Fixed(0),
    ensures
        ({
            let ts = spec_typespec(seq![' '] + dtype_name(d) + sizing_text(sz), st);
            &&& ts.dtype matches Some(t) && spec_dtype_token(t) == Ok::<Dtype, InternalErrorV>(d)
            &&& match ts.sizing {
                Some(t) => spec_sizing_token(t) == Ok::<Sizing, InternalErrorV>(sz),
                None => ts.is_singleton && sz == Sizing::Singleton,
            }
        }),
{
    lemma_name_part(d, st);
    match sz {
        Sizing::Singleton => lemma_singleton_text(d, st),
        Sizing::Dynamic => lemma_dynamic_text(d, st),
        Sizing::Fixed(n) => lemma_fixed_text(d, n, st),
    }
}

#[verifier::spinoff_prover]
#[verifier::rlimit(40)]
proof fn lemma_singleton_text(d: Dtype, st: int)
    ensures
        ({
            let ts = spec_typespec(seq![' '] + dtype_name(d) + sizing_text(Sizing::Singleton), st);
            &&& ts.dtype matches Some(t) && spec_dtype_token(t) == Ok::<Dtype, InternalErrorV>(d)
            &&& ts.sizing is None && ts.is_singleton
        }),
{
    lemma_name_part(d, st);
    let u = seq![' '] + dtype_name(d);
    assert(u + sizing_text(Sizing::Singleton) =~= u);
    lemma_first_index(u, '[', u.len() as int);
}

#[verifier::spinoff_prover]
#[verifier::rlimit(40)]
proof fn lemma_dynamic_text(d: Dtype, st: int)
    ensures
        ({
            let ts = spec_typespec(seq![' '] + dtype_name(d) + sizing_text(Sizing::Dynamic), st);
            &&& ts.dtype matches Some(t) && spec_dtype_token(t) == Ok::<Dtype, InternalErrorV>(d)
            &&& ts.sizing matches Some(t) && spec_sizing_token(t) == Ok::<Sizing, InternalErrorV>(Sizing::Dynamic)
        }),
{
    reveal_strlit("[]");
    lemma_name_part(d, st);
    let u = seq![' '] + dtype_name(d);
    let e = Seq::<char>::empty();
    let v = seq![']'];
    let tp = u + sizing_text(Sizing::Dynamic);
    assert(tp =~= u + seq!['['] + v);
    lemma_first_at(u, v, '[');
    assert(tp.subrange(0, u.len() as int) =~= u);
    let after = tp.subrange(u.len() as int + 1, tp.len() as int);
    assert(after =~= e + seq![']'] + e);
    lemma_first_at(e, e, ']');
    assert(after.subrange(0, 0) =~= e);
}

#[verifier::spinoff_prover]
#[verifier::rlimit(40)]
proof fn lemma_fixed_text(d: Dtype, n: u64, st: int)
    requires
        n != 0,
    ensures
        ({
            let ts = spec_typespec(seq![' '] + dtype_name(d) + sizing_text(Sizing::Fixed(n)), st);
            &&& ts.dtype matches Some(t) && spec_dtype_token(t) == Ok::<Dtype, InternalErrorV>(d)
            &&& ts.sizing matches Some(t) && spec_sizing_token(t) == Ok::<Sizing, InternalErrorV>(Sizing::Fixed(n))
        }),
{
    reveal_strlit("[");
    reveal_strlit("]");
    lemma_name_part(d, st);
    let u = seq![' '] + dtype_name(d);
    let e = Seq::<char>::empty();
    let ds = decimal(n as nat);
    lemma_decimal_digits(n as nat);
    lemma_plain_trim(ds);
    let tp = u + sizing_text(Sizing::Fixed(n));
    let v = ds + seq![']'];
    assert(tp =~= u + seq!['['] + v);
    lemma_first_at(u, v, '[');
    assert(tp.subrange(0, u.len() as int) =~= u);
    let after = tp.subrange(u.len() as int + 1, tp.len() as int);
    assert(after =~= ds + seq![']'] + e);
    lemma_plain_lacks(ds, ']');
    lemma_first_at(ds, e, ']');
    assert(after.subrange(0, ds.len() as int) =~= ds);
    assert(parse_u64(ds) == Some(n));
}

/// Law: the text of a legal member (an identifier that validates, a string only as a singleton,
/// no array of size zero) parses and validates back to the member, wherever it starts.
#[verifier::spinoff_prover]
#[verifier::rlimit(40)]
pub proof fn lemma_member_text_reads_back(m: MemberV, start: int)
    requires
        spec_identifier_token(token_at(m.identifier, 0)) is Ok,
        legal_sizing(m.sizing, m.dtype),
        m.sizing != Sizing::Fixed(0),
    ensures
        spec_validate_memberspec(spec_memberspec(member_text(m), start)) == Ok::<MemberV, InternalErrorV>(m),
{
    reveal_strlit(": ");
    let id = m.identifier;
    lemma_valid_identifier_shape(token_at(id, 0));
    assert forall|j: int| 0 <= j < id.len() implies plain(#[trigger] id[j]) by {
        assert(identifier_char(id[j]));
    }
    lemma_plain_trim(id);
    lemma_plain_lacks(id, ':');
    let tp = seq![' '] + dtype_name(m.dtype) + sizing_text(m.sizing);
    let x = member_text(m);
    assert(x =~= id + seq![':'] + tp);
    lemma_first_at(id, tp, ':');
    assert(x.subrange(0, id.len() as int) =~= id);
    assert(x.subrange(id.len() as int + 1, x.len() as int) =~= tp);
    lemma_type_text_reads_back(m.dtype, m.sizing, start + id.len() + 1);
    let ms = spec_memberspec(x, start);
    let it = ms.identifier.unwrap();
    assert(it.data == id);
    lemma_identifier_by_text(it, token_at(id, 0));
}

/// An identifier of ASCII letters, digits and underscores that starts with a letter.
pub open spec fn ascii_identifier(s: Seq<char>) -> bool {
    &&& s.len() > 0
    &&& ascii_letter(s[0])
    &&& forall|j: int| 0 <= j < s.len() ==> identifier_char(#[trigger] s[j])
}

proof fn lemma_no_illegal_chars(s: Seq<char>)
    requires
        forall|j: int| 0 <= j < s.len() ==> identifier_char(#[trigger] s[j]),
    ensures
        sorted_illegal_ident(s).len() == 0,
    decreases s.len(),
{
    if s.len() > 0 {
        let d = s.drop_last();
        assert forall|j: int| 0 <= j < d.len() implies identifier_char(#[trigger] d[j]) by {
            assert(d[j] == s[j]);
        }
        lemma_no_illegal_chars(d);
        assert(identifier_char(s[s.len() - 1]));
    }
}

/// An ASCII identifier that starts with a letter validates, wherever it stands.
pub proof fn lemma_ascii_identifier_valid(s: Seq<char>, start: int)
    requires
        ascii_identifier(s),
    ensures
        spec_identifier_token(token_at(s, start)) == Ok::<Seq<char>, InternalErrorV>(s),
{
    lemma_no_illegal_chars(s);
    assert(alphabetic(s[0]));
    assert(identifier_errors(token_at(s, start)).len() == 0);
}

/// Law: the text of a member with an ASCII identifier starting with a letter, a string only as
/// a singleton and no array of size zero parses and validates back to the member.
pub proof fn lemma_ascii_member_text_reads_back(m: MemberV, start: int)
    requires
        ascii_identifier(m.identifier),
        legal_sizing(m.sizing, m.dtype),
        m.sizing != Sizing::Fixed(0),
    ensures
        spec_validate_memberspec(spec_memberspec(member_text(m), start)) == Ok::<MemberV, InternalErrorV>(m),
{
    lemma_ascii_identifier_valid(m.identifier, 0);
    lemma_member_text_reads_back(m, start);
}

/// Splitting at `c` a text made of two texts joined by `c` splits each.
#[verifier::spinoff_prover]
#[verifier::rlimit(40)]
proof fn lemma_split_concat(a: Seq<char>, b: Seq<char>, c: char)
    ensures
        split_on(a + seq![c] + b, c) == split_on(a, c) + split_on(b, c),
    decreases a.len(),
{
    let s = a + seq![c] + b;
    lemma_first_index_props(a, c);
    match first_index(a, c) {
        None => {
            lemma_first_at(a, b, c);
            assert(s.subrange(0, a.len() as int) =~= a);
            assert(s.subrange(a.len() as int + 1, s.len() as int) =~= b);
            assert(split_on(a, c) == seq![a]);
        },
        Some(k) => {
            let r = a.subrange(k + 1, a.len() as int);
            lemma_first_index_front(Seq::<char>::empty(), s, c);
            assert forall|j: int| 0 <= j < k implies #[trigger] s[j] != c by {
                assert(s[j] == a[j]);
            }
            assert(s[k] == c);
            lemma_first_index(s, c, k);
            assert(s.subrange(0, k) =~= a.subrange(0, k));
            assert(s.subrange(k + 1, s.len() as int) =~= r + seq![c] + b);
            lemma_split_concat(r, b, c);
            assert(split_on(s, c) =~= split_on(a, c) + split_on(b, c));
        },
    }
}

/// The member texts of a designation's text: the first as written, each other after the space
/// that follows its comma.
pub open spec fn spaced_parts(parts: Seq<Seq<char>>) -> Seq<Seq<char>> {
    Seq::new(parts.len(), |i: int| if i == 0 { parts[0] } else { seq![' '] + parts[i] })
}

#[verifier::spinoff_prover]
#[verifier::rlimit(40)]
proof fn lemma_split_join(parts: Seq<Seq<char>>)
    requires
        parts.len() >= 1,
        forall|i: int, j: int| 0 <= i < parts.len() && 0 <= j < parts[i].len() ==> #[trigger] parts[i][j] != ',',
    ensures
        split_on(join(parts, ", "@), ',') == spaced_parts(parts),
    decreases parts.len(),
{
    reveal_strlit(", ");
    if parts.len() == 1 {
        let p = parts[0];
        assert forall|j: int| 0 <= j < p.len() implies #[trigger] p[j] != ',' by {
            assert(parts[0][j] != ',');
        }
        lemma_first_index(p, ',', p.len() as int);
        assert(split_on(p, ',') =~= spaced_parts(parts));
    } else {
        let d = parts.drop_last();
        assert forall|i: int, j: int| 0 <= i < d.len() && 0 <= j < d[i].len() implies #[trigger] d[i][j] != ',' by {
            assert(d[i] == parts[i]);
        }
        lemma_split_join(d);
        let last = seq![' '] + parts.last();
        assert forall|j: int| 0 <= j < last.len() implies #[trigger] last[j] != ',' by {
            if j > 0 {
                assert(last[j] == parts[parts.len() - 1][j - 1]);
            }
        }
        lemma_first_index(last, ',', last.len() as int);
        assert(join(parts, ", "@) =~= join(d, ", "@) + seq![','] + last);
        lemma_split_concat(join(d, ", "@), last, ',');
        assert(split_on(join(parts, ", "@), ',') =~= spaced_parts(parts));
    }
}

/// Validating parsed members that each validate to the member at the same place, with no
/// identifier twice, gives those members and no error.
#[verifier::spinoff_prover]
#[verifier::rlimit(40)]
proof fn lemma_validate_all_exact(ps: Seq<MemberSpecV>, ms: Seq<MemberV>)
    requires
        ps.len() == ms.len(),
        forall|i: int| 0 <= i < ps.len() ==> validated(#[trigger] ps[i]) == Some(ms[i]),
        identifiers_distinct(ms),
    ensures
        validate_all(ps) == (ms, Seq::<InternalErrorV>::empty()),
    decreases ps.len(),
{
    if ps.len() == 0 {
        assert(ms =~= Seq::<MemberV>::empty());
    } else {
        let dp = ps.drop_last();
        let dm = ms.drop_last();
        assert forall|i: int| 0 <= i < dp.len() implies validated(#[trigger] dp[i]) == Some(dm[i]) by {
            assert(dp[i] == ps[i]);
            assert(validated(ps[i]) == Some(ms[i]));
        }
        assert forall|i: int, j: int| 0 <= i < j < dm.len() implies (#[trigger] dm[i]).identifier != (
        #[trigger] dm[j]).identifier by {
            assert(ms[i].identifier != ms[j].identifier);
        }
        lemma_validate_all_exact(dp, dm);
        let m = ms.last();
        assert(validated(ps[ps.len() - 1]) == Some(ms[ms.len() - 1]));
        assert(spec_validate_memberspec(ps.last()) == Ok::<MemberV, InternalErrorV>(m));
        assert(!exists|k: int| 0 <= k < dm.len() && (#[trigger] dm[k]).identifier == m.identifier) by {
            assert forall|k: int| 0 <= k < dm.len() implies (#[trigger] dm[k]).identifier != m.identifier by {
                assert(dm[k] == ms[k]);
                assert(ms[k].identifier != ms[ms.len() - 1].identifier);
            }
        }
        assert(dm.push(m) =~= ms);
    }
}

/// A legal member with an ASCII identifier: what the text of a designation holds.
pub open spec fn writable_member(m: MemberV) -> bool {
    &&& ascii_identifier(m.identifier)
    &&& legal_sizing(m.sizing, m.dtype)
    &&& m.sizing != Sizing::Fixed(0)
}

proof fn lemma_member_text_no_comma(m: MemberV)
    requires
        writable_member(m),
    ensures
        forall|j: int| 0 <= j < member_text(m).len() ==> #[trigger] member_text(m)[j] != ',',
        member_text(m).len() > 0,
        !white_space(member_text(m)[0]),
{
    reveal_strlit(": ");
    let id = m.identifier;
    let tt = type_text(m.dtype, m.sizing);
    lemma_type_text_chars(m.dtype, m.sizing);
    let x = member_text(m);
    assert(x =~= id + seq![':', ' '] + tt);
    assert forall|j: int| 0 <= j < x.len() implies #[trigger] x[j] != ',' by {
        if j < id.len() {
            assert(x[j] == id[j]);
            assert(identifier_char(id[j]));
        } else if j >= id.len() + 2 {
            assert(x[j] == tt[j - id.len() - 2]);
            let c = tt[j - id.len() - 2];
            assert(ascii_alphanumeric(c) || c == '[' || c == ']');
        }
    }
    assert(x[0] == id[0]);
}

/// Law: the text of a designation (its members written one after another, separated by `", "`)
/// reads back through the designation parser as the same members, when each member has an
/// ASCII identifier starting with a letter, no string is an array, no array has size zero, and
/// no identifier occurs twice.
#[verifier::spinoff_prover]
#[verifier::rlimit(60)]
pub proof fn lemma_designation_text_reads_back(ms: Seq<MemberV>)
    requires
        forall|k: int| 0 <= k < ms.len() ==> writable_member(#[trigger] ms[k]),
        identifiers_distinct(ms),
    ensures
        spec_from_text(designation_text(ms)) == Ok::<Seq<MemberV>, crate::error::ElucidatorErrorV>(ms),
{
    let text = designation_text(ms);
    let parts = ms.map_values(|m: MemberV| member_text(m));
    assert(text == join(parts, ", "@));
    if ms.len() == 0 {
        assert(parts =~= Seq::<Seq<char>>::empty());
        assert(all_white(text));
        assert(validate_all(spec_metadataspec(text).member_outputs) == (
            Seq::<MemberV>::empty(),
            Seq::<InternalErrorV>::empty(),
        ));
        assert(ms =~= Seq::<MemberV>::empty());
    } else {
        assert forall|i: int, j: int| 0 <= i < parts.len() && 0 <= j < parts[i].len() implies #[trigger] parts[i][j]
            != ',' by {
            lemma_member_text_no_comma(ms[i]);
        }
        lemma_split_join(parts);
        let sp = split_on(text, ',');
        assert(sp == spaced_parts(parts));
        lemma_all_white_sections(text, ',');
        lemma_member_text_no_comma(ms[0]);
        assert(sp[0] == member_text(ms[0]));
        assert(!all_white(sp[0]));
        assert(!all_white(text));
        assert(text.subrange(0, text.len() as int) =~= text);
        lemma_members_from_sections(text, 0);
        let ps = members_from(text, 0);
        assert(spec_metadataspec(text).member_outputs == ps);
        assert forall|i: int| 0 <= i < ps.len() implies validated(#[trigger] ps[i]) == Some(ms[i]) by {
            assert(writable_member(ms[i]));
            lemma_ascii_member_text_reads_back(ms[i], 0);
            if i == 0 {
                assert(sp[0] == member_text(ms[0]));
            } else {
                let w = seq![' '];
                let e = Seq::<char>::empty();
                assert(sp[i] == w + member_text(ms[i]));
                assert(padding(w)) by {
                    assert(w[0] == ' ');
                }
                assert(sp[i] =~= w + member_text(ms[i]) + e);
                lemma_member_padded(w, member_text(ms[i]), e, 0, 0);
            }
        }
        lemma_validate_all_exact(ps, ms);
    }
}

proof fn lemma_count_name_zero(names: Seq<Option<Seq<char>>>, n: Seq<char>)
    requires
        forall|k: int| 0 <= k < names.len() ==> #[trigger] names[k] != Some(n),
    ensures
        count_name(names, n) == 0,
    decreases names.len(),
{
    if names.len() > 0 {
        let d = names.drop_last();
        assert forall|k: int| 0 <= k < d.len() implies #[trigger] d[k] != Some(n) by {
            assert(d[k] == names[k]);
        }
        lemma_count_name_zero(d, n);
        assert(names[names.len() - 1] != Some(n));
    }
}

/// The text of a writable member: it ends in a character that is not white space, and its
/// name (the trimmed text before its first colon) is its identifier.
proof fn lemma_member_text_name(m: MemberV)
    requires
        writable_member(m),
    ensures
        !white_space(member_text(m)[member_text(m).len() - 1]),
        section_name(member_text(m)) == Some(m.identifier),
{
    reveal_strlit(": ");
    let id = m.identifier;
    let tt = type_text(m.dtype, m.sizing);
    lemma_type_text_chars(m.dtype, m.sizing);
    let x = member_text(m);
    let ty = seq![' '] + tt;
    assert(x =~= id + seq![':'] + ty);
    assert(x[x.len() - 1] == tt[tt.len() - 1]);
    let c = tt[tt.len() - 1];
    assert(ascii_alphanumeric(c) || c == '[' || c == ']');
    assert forall|j: int| 0 <= j < id.len() implies plain(#[trigger] id[j]) by {
        assert(identifier_char(id[j]));
    }
    lemma_plain_trim(id);
    lemma_plain_lacks(id, ':');
    lemma_first_at(id, ty, ':');
    assert(x.subrange(0, id.len() as int) =~= id);
}

proof fn lemma_member_report_texts(ms: Seq<MemberV>, text: Seq<char>)
    requires
        forall|k: int| 0 <= k < ms.len() ==> writable_member(#[trigger] ms[k]),
        identifiers_distinct(ms),
    ensures
        member_report(ms.map_values(|m: MemberV| member_text(m)), text) == (
            ms,
            Seq::<ElucidatorErrorV>::empty(),
            Seq::<ElucidatorErrorV>::empty(),
        ),
    decreases ms.len(),
{
    let secs = ms.map_values(|m: MemberV| member_text(m));
    if ms.len() == 0 {
        assert(ms =~= Seq::<MemberV>::empty());
    } else {
        let d = ms.drop_last();
        assert forall|k: int| 0 <= k < d.len() implies writable_member(#[trigger] d[k]) by {
            assert(d[k] == ms[k]);
        }
        assert forall|i: int, j: int| 0 <= i < j < d.len() implies (#[trigger] d[i]).identifier != (
        #[trigger] d[j]).identifier by {
            assert(ms[i].identifier != ms[j].identifier);
        }
        lemma_member_report_texts(d, text);
        assert(secs.drop_last() =~= d.map_values(|m: MemberV| member_text(m)));
        let m = ms[ms.len() - 1];
        assert(writable_member(m));
        assert(secs.last() == member_text(m));
        lemma_member_text_read_by_from(m);
        lemma_member_text_name(m);
        let names = section_names(secs.drop_last());
        assert forall|k: int| 0 <= k < names.len() implies #[trigger] names[k] != Some(m.identifier) by {
            assert(names[k] == section_name(secs.drop_last()[k]));
            assert(secs.drop_last()[k] == member_text(ms[k]));
            assert(writable_member(ms[k]));
            lemma_member_text_name(ms[k]);
            assert(ms[k].identifier != ms[ms.len() - 1].identifier);
        }
        lemma_count_name_zero(names, m.identifier);
        assert(d.push(m) =~= ms);
    }
}

/// Law: a specification written out (a designation that is an ASCII identifier starting with a
/// letter, and the text of its members) reads back through `MetadataSpecification::from_str` as
/// that designation with those members, when each member has an ASCII identifier starting with a
/// letter, no string is an array, no array has size zero, and no identifier occurs twice.
#[verifier::spinoff_prover]
#[verifier::rlimit(60)]
pub proof fn lemma_specification_text_reads_back(name: Seq<char>, ms: Seq<MemberV>)
    requires
        ascii_identifier(name),
        forall|k: int| 0 <= k < ms.len() ==> writable_member(#[trigger] ms[k]),
        identifiers_distinct(ms),
    ensures
        spec_metadata_from(name, designation_text(ms)) == Ok::<MetadataV, crate::error::ElucidatorErrorV>(
            MetadataV { designation: name, members: ms },
        ),
{
    assert forall|j: int| 0 <= j < name.len() implies plain(#[trigger] name[j]) by {
        assert(identifier_char(name[j]));
    }
    lemma_plain_trim(name);
    assert(vstd::utf8::is_ascii_chars(name)) by {
        assert forall|j: int| 0 <= j < name.len() implies '\0' <= #[trigger] name[j] <= '\u{7f}' by {
            assert(identifier_char(name[j]));
            crate::member::member_spacing::lemma_code_ascii(name[j]);
        }
    }
    lemma_no_illegal_chars(name);
    assert(alphabetic(name[0]));
    assert(spec_validate_designation(name) == Ok::<Seq<char>, crate::error::ElucidatorErrorV>(name));
    let text = designation_text(ms);
    let parts = ms.map_values(|m: MemberV| member_text(m));
    assert(text == join(parts, ", "@));
    if ms.len() == 0 {
        assert(parts =~= Seq::<Seq<char>>::empty());
        assert(text =~= Seq::<char>::empty());
        lemma_first_index(text, ',', 0);
        assert(split_on(text, ',') == seq![text]);
        assert(all_white(text));
        assert(sections(text) =~= seq![Seq::<char>::empty()]);
        assert(ms =~= Seq::<MemberV>::empty());
    } else {
        assert forall|i: int, j: int| 0 <= i < parts.len() && 0 <= j < parts[i].len() implies #[trigger] parts[i][j]
            != ',' by {
            lemma_member_text_no_comma(ms[i]);
        }
        lemma_split_join(parts);
        let secs = sections(text);
        assert forall|i: int| 0 <= i < secs.len() implies #[trigger] secs[i] == parts[i] by {
            let m = ms[i];
            assert(writable_member(m));
            lemma_member_text_no_comma(m);
            lemma_member_text_name(m);
            let mt = member_text(m);
            crate::member::member_spacing::lemma_trim_ends(mt);
            assert(parts[i] == mt);
            if i > 0 {
                let w = seq![' '];
                assert(all_white(w)) by {
                    assert(w[0] == ' ');
                }
                let e = Seq::<char>::empty();
                assert(w + mt =~= w + mt + e);
                lemma_trim_padded(w, mt, e);
            }
        }
        assert(secs =~= parts);
        lemma_member_text_no_comma(ms[0]);
        assert(secs[0].len() > 0);
        lemma_member_report_texts(ms, text);
    }
}

} // verus!
