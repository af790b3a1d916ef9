//! What `TypeSpecification::from` and `MemberSpecification::from` read: the written form of a
//! type or member reads back as it, and white space around the colon and at the ends of a
//! member's text changes nothing.
use vstd::prelude::*;
use vstd::utf8::is_ascii_chars;
use crate::error::{ElucidatorErrorV, SpecificationFailureV};
use crate::helper::{bracket_chars, has_white, invalid_chars, spec_validate_identifier, spec_validated_trimmed, valid_char};
use crate::member::dtype::{dtype_name, lemma_dtype_name_round_trip, spec_dtype_from, Dtype};
use crate::member::member_specification::{legal_sizing, member_text, sizing_text, spec_member_from, MemberV};
use crate::member::sizing::Sizing;
use crate::member::type_specification::{spec_typespec_from, TypeSpecification};
use crate::spacing::{ascii_identifier, lemma_decimal_digits, lemma_first_at, lemma_trim_padded, padding};
use crate::text::{
    all_white, first_index, leading_white, lemma_first_index, lemma_leading_white_props,
    lemma_trailing_white_props, lemma_trim_bounds, trailing_white, trim, white_space, alphabetic,
    ascii_alphanumeric, ascii_letter, decimal, parse_u64,
};

verus! {

/// The member read, if the reading succeeds.
pub open spec fn member_read(r: Result<MemberV, ElucidatorErrorV>) -> Option<MemberV> {
    match r {
        Ok(m) => Some(m),
        Err(_) => None,
    }
}

pub open spec fn identifier_read(s: Seq<char>) -> Option<Seq<char>> {
    match spec_validate_identifier(s) {
        Ok(i) => Some(i),
        Err(_) => None,
    }
}

pub open spec fn typespec_read(s: Seq<char>) -> Option<TypeSpecification> {
    match spec_typespec_from(s) {
        Ok(t) => Some(t),
        Err(_) => None,
    }
}

/// The member made of an identifier and a type specification, when both were read.
pub open spec fn combined(i: Option<Seq<char>>, t: Option<TypeSpecification>) -> Option<MemberV> {
    match (i, t) {
        (Some(i), Some(t)) => Some(MemberV { identifier: i, sizing: t.sizing, dtype: t.dtype }),
        _ => None,
    }
}

#[verifier::spinoff_prover]
#[verifier::rlimit(40)]
proof fn lemma_ascii_subrange(s: Seq<char>, i: int, j: int)
    requires
        is_ascii_chars(s),
        0 <= i <= j <= s.len(),
    ensures
        is_ascii_chars(s.subrange(i, j)),
{
    assert forall|k: int| 0 <= k < j - i implies '\0' <= #[trigger] s.subrange(i, j)[k] <= '\u{7f}' by {
        assert(s.subrange(i, j)[k] == s[i + k]);
    }
}

#[verifier::spinoff_prover]
#[verifier::rlimit(40)]
proof fn lemma_ascii_concat(a: Seq<char>, b: Seq<char>)
    ensures
        is_ascii_chars(a + b) == (is_ascii_chars(a) && is_ascii_chars(b)),
{
    if is_ascii_chars(a) && is_ascii_chars(b) {
        assert forall|k: int| 0 <= k < (a + b).len() implies '\0' <= #[trigger] (a + b)[k] <= '\u{7f}' by {
            if k < a.len() {
                assert((a + b)[k] == a[k]);
            } else {
                assert((a + b)[k] == b[k - a.len()]);
            }
        }
    }
    if is_ascii_chars(a + b) {
        assert forall|k: int| 0 <= k < a.len() implies '\0' <= #[trigger] a[k] <= '\u{7f}' by {
            assert((a + b)[k] == a[k]);
        }
        assert forall|k: int| 0 <= k < b.len() implies '\0' <= #[trigger] b[k] <= '\u{7f}' by {
            assert((a + b)[k + a.len()] == b[k]);
        }
    }
}

/// Trimming twice is trimming once.
#[verifier::spinoff_prover]
#[verifier::rlimit(40)]
proof fn lemma_trim_twice(s: Seq<char>)
    ensures
        trim(trim(s)) == trim(s),
{
    if all_white(s) {
        assert(all_white(Seq::<char>::empty()));
    } else {
        lemma_trim_bounds(s);
        lemma_leading_white_props(s);
        lemma_trailing_white_props(s);
        let la = leading_white(s) as int;
        let lb = trailing_white(s) as int;
        let w1 = s.subrange(0, la);
        let w2 = s.subrange(s.len() - lb, s.len() as int);
        assert(all_white(w1)) by {
            assert forall|k: int| 0 <= k < w1.len() implies white_space(#[trigger] w1[k]) by {
                assert(w1[k] == s[k]);
            }
        }
        assert(all_white(w2)) by {
            assert forall|k: int| 0 <= k < w2.len() implies white_space(#[trigger] w2[k]) by {
                assert(w2[k] == s[s.len() - lb + k]);
            }
        }
        assert(s =~= w1 + trim(s) + w2);
        lemma_trim_padded(w1, trim(s), w2);
    }
}

/// What an ASCII identifier text reads as depends on its trimmed text alone.
#[verifier::spinoff_prover]
#[verifier::rlimit(40)]
proof fn lemma_identifier_by_trim(s: Seq<char>)
    requires
        is_ascii_chars(s),
    ensures
        identifier_read(s) == identifier_read(trim(s)),
{
    lemma_trim_twice(s);
    lemma_ascii_trim(s);
}

/// What an ASCII type text reads as depends on its trimmed text alone.
#[verifier::spinoff_prover]
#[verifier::rlimit(40)]
proof fn lemma_typespec_by_trim(s: Seq<char>)
    requires
        is_ascii_chars(s),
    ensures
        typespec_read(s) == typespec_read(trim(s)),
{
    lemma_trim_twice(s);
    lemma_ascii_trim(s);
}

#[verifier::spinoff_prover]
#[verifier::rlimit(40)]
proof fn lemma_ascii_trim(s: Seq<char>)
    requires
        is_ascii_chars(s),
    ensures
        is_ascii_chars(trim(s)),
{
    if !all_white(s) {
        lemma_trim_bounds(s);
        lemma_ascii_subrange(s, leading_white(s) as int, s.len() - trailing_white(s));
    }
}

/// An ASCII text `a: b` (no colon in `a`) reads as the member made of what the trimmed `a`
/// reads as an identifier and the trimmed `b` as a type specification.
#[verifier::spinoff_prover]
#[verifier::rlimit(40)]
proof fn lemma_member_from_parts(a: Seq<char>, b: Seq<char>)
    requires
        forall|j: int| 0 <= j < a.len() ==> #[trigger] a[j] != ':',
        is_ascii_chars(a),
        is_ascii_chars(b),
    ensures
        member_read(spec_member_from(a + seq![':'] + b)) == combined(
            identifier_read(trim(a)),
            typespec_read(trim(b)),
        ),
{
    let x = a + seq![':'] + b;
    lemma_ascii_concat(a, seq![':']);
    lemma_ascii_concat(a + seq![':'], b);
    assert(x[a.len() as int] == ':');
    assert(!white_space(':'));
    assert(!all_white(x));
    lemma_trim_bounds(x);
    lemma_leading_white_props(x);
    lemma_trailing_white_props(x);
    let la = leading_white(x) as int;
    let lb = trailing_white(x) as int;
    assert(la <= a.len());
    assert(lb <= b.len());
    let t = trim(x);
    assert(t == x.subrange(la, x.len() - lb));
    let a2 = a.subrange(la, a.len() as int);
    let b2 = b.subrange(0, b.len() - lb);
    assert(t =~= a2 + seq![':'] + b2);
    assert forall|j: int| 0 <= j < a2.len() implies #[trigger] a2[j] != ':' by {
        assert(a2[j] == a[la + j]);
    }
    assert(t[a2.len() as int] == ':');
    lemma_first_index(t, ':', a2.len() as int);
    assert(t.subrange(0, a2.len() as int) =~= a2);
    assert(t.subrange(a2.len() as int + 1, t.len() as int) =~= b2);
    let e = Seq::<char>::empty();
    let wa = a.subrange(0, la);
    assert(all_white(wa)) by {
        assert forall|k: int| 0 <= k < wa.len() implies white_space(#[trigger] wa[k]) by {
            assert(wa[k] == x[k]);
        }
    }
    assert(a =~= wa + a2 + e);
    lemma_trim_padded(wa, a2, e);
    let wb = b.subrange(b.len() - lb, b.len() as int);
    assert(all_white(wb)) by {
        assert forall|k: int| 0 <= k < wb.len() implies white_space(#[trigger] wb[k]) by {
            assert(wb[k] == x[x.len() - lb + k]);
        }
    }
    assert(b =~= e + b2 + wb);
    lemma_trim_padded(e, b2, wb);
    lemma_ascii_subrange(a, la, a.len() as int);
    lemma_ascii_subrange(b, 0, b.len() - lb);
    lemma_identifier_by_trim(a2);
    lemma_typespec_by_trim(b2);
}

/// Law: white space (ASCII, holding no delimiter) put at the ends of a member's text and around
/// its colon does not change the member that `MemberSpecification::from` reads, nor whether it
/// reads one.
#[verifier::spinoff_prover]
#[verifier::rlimit(40)]
pub proof fn lemma_member_from_spaced(
    a: Seq<char>,
    b: Seq<char>,
    w0: Seq<char>,
    w1: Seq<char>,
    w2: Seq<char>,
    w3: Seq<char>,
)
    requires
        forall|j: int| 0 <= j < a.len() ==> #[trigger] a[j] != ':',
        padding(w0) && is_ascii_chars(w0),
        padding(w1) && is_ascii_chars(w1),
        padding(w2) && is_ascii_chars(w2),
        padding(w3) && is_ascii_chars(w3),
    ensures
        member_read(spec_member_from(w0 + a + w1 + seq![':'] + w2 + b + w3)) == member_read(
            spec_member_from(a + seq![':'] + b),
        ),
{
    let a1 = w0 + a + w1;
    let b1 = w2 + b + w3;
    let y = w0 + a + w1 + seq![':'] + w2 + b + w3;
    assert(y =~= a1 + seq![':'] + b1);
    assert forall|j: int| 0 <= j < a1.len() implies #[trigger] a1[j] != ':' by {
        if j < w0.len() {
            assert(a1[j] == w0[j]);
            assert(!crate::spacing::delimiter(w0[j]));
        } else if j < w0.len() + a.len() {
            assert(a1[j] == a[j - w0.len()]);
        } else {
            assert(a1[j] == w1[j - w0.len() - a.len()]);
            assert(!crate::spacing::delimiter(w1[j - w0.len() - a.len()]));
        }
    }
    lemma_ascii_concat(w0, a);
    lemma_ascii_concat(w0 + a, w1);
    lemma_ascii_concat(w2, b);
    lemma_ascii_concat(w2 + b, w3);
    lemma_ascii_concat(a1, seq![':']);
    lemma_ascii_concat(a1 + seq![':'], b1);
    lemma_ascii_concat(a, seq![':']);
    lemma_ascii_concat(a + seq![':'], b);
    lemma_trim_padded(w0, a, w1);
    lemma_trim_padded(w2, b, w3);
    if is_ascii_chars(a) && is_ascii_chars(b) {
        lemma_member_from_parts(a1, b1);
        lemma_member_from_parts(a, b);
    }
}

/// A character whose code is below 128 is ASCII.
pub proof fn lemma_code_ascii(c: char)
    requires
        (c as u32) < 128,
    ensures
        '\0' <= c <= '\u{7f}',
{
}

proof fn lemma_no_invalid_chars(s: Seq<char>)
    requires
        forall|j: int| 0 <= j < s.len() ==> valid_char(#[trigger] s[j]),
    ensures
        invalid_chars(s).len() == 0,
    decreases s.len(),
{
    if s.len() > 0 {
        let d = s.drop_last();
        assert forall|j: int| 0 <= j < d.len() implies valid_char(#[trigger] d[j]) by {
            assert(d[j] == s[j]);
        }
        lemma_no_invalid_chars(d);
        assert(valid_char(s[s.len() - 1]));
    }
}

proof fn lemma_no_brackets(s: Seq<char>)
    requires
        forall|j: int| 0 <= j < s.len() ==> #[trigger] s[j] != '[' && s[j] != ']',
    ensures
        bracket_chars(s).len() == 0,
    decreases s.len(),
{
    if s.len() > 0 {
        let d = s.drop_last();
        assert forall|j: int| 0 <= j < d.len() implies #[trigger] d[j] != '[' && d[j] != ']' by {
            assert(d[j] == s[j]);
        }
        lemma_no_brackets(d);
        assert(s[s.len() - 1] != '[' && s[s.len() - 1] != ']');
    }
}

/// A text whose first and last characters are not white space is its own trimmed text.
pub proof fn lemma_trim_ends(s: Seq<char>)
    requires
        s.len() > 0,
        !white_space(s[0]),
        !white_space(s[s.len() - 1]),
    ensures
        !all_white(s),
        trim(s) == s,
{
    crate::text::lemma_leading_white(s, 0);
    crate::text::lemma_trailing_white(s, 0);
    assert(s.subrange(0, s.len() as int) =~= s);
}

/// The characters of a data type's name are ASCII letters or digits.
proof fn lemma_name_chars(d: Dtype)
    ensures
        dtype_name(d).len() > 0,
        forall|j: int| 0 <= j < dtype_name(d).len() ==> ascii_alphanumeric(#[trigger] dtype_name(d)[j]),
{
}

/// The written form of a type, its data type's name followed by its sizing.
pub open spec fn type_text(d: Dtype, sz: Sizing) -> Seq<char> {
    dtype_name(d) + sizing_text(sz)
}

/// The characters of a type's written form are ASCII letters, digits or brackets, and it starts
/// with a letter and ends with a letter, a digit or `]`.
pub proof fn lemma_type_text_chars(d: Dtype, sz: Sizing)
    ensures
        type_text(d, sz).len() > 0,
        forall|j: int| 0 <= j < type_text(d, sz).len() ==> {
            let c = #[trigger] type_text(d, sz)[j];
            ascii_alphanumeric(c) || c == '[' || c == ']'
        },
        ascii_letter(type_text(d, sz)[0]),
{
    reveal_strlit("[]");
    reveal_strlit("[");
    reveal_strlit("]");
    lemma_name_chars(d);
    let name = dtype_name(d);
    let t = type_text(d, sz);
    let z = sizing_text(sz);
    assert(ascii_letter(name[0]));
    assert(t[0] == name[0]);
    match sz {
        Sizing::Fixed(n) => {
            lemma_decimal_digits(n as nat);
            let ds = decimal(n as nat);
            assert(z =~= seq!['['] + ds + seq![']']);
            assert forall|j: int| 0 <= j < z.len() implies {
                let c = #[trigger] z[j];
                ascii_alphanumeric(c) || c == '[' || c == ']'
            } by {
                if 0 < j < z.len() - 1 {
                    assert(z[j] == ds[j - 1]);
                    assert(crate::text::is_digit(ds[j - 1]));
                }
            }
        },
        _ => {},
    }
    assert forall|j: int| 0 <= j < t.len() implies {
        let c = #[trigger] t[j];
        ascii_alphanumeric(c) || c == '[' || c == ']'
    } by {
        if j < name.len() {
            assert(t[j] == name[j]);
        } else {
            assert(t[j] == z[j - name.len()]);
        }
    }
}

/// Law: the written form of a type reads back as it: `TypeSpecification::from` gives the data
/// type with its sizing (`u32`, `u32[n]` for every `n`, `u32[]`), and refuses a string array.
#[verifier::spinoff_prover]
#[verifier::rlimit(60)]
pub proof fn lemma_type_text_reads_back(d: Dtype, sz: Sizing)
    ensures
        spec_typespec_from(type_text(d, sz)) == (if legal_sizing(sz, d) {
            Ok::<TypeSpecification, ElucidatorErrorV>(TypeSpecification { dtype: d, sizing: sz })
        } else {
            Err::<TypeSpecification, ElucidatorErrorV>(
                ElucidatorErrorV::IllegalSpecification {
                    offender: type_text(d, sz),
                    reason: SpecificationFailureV::IllegalArraySizing,
                },
            )
        }),
{
    reveal_strlit("[]");
    reveal_strlit("[");
    reveal_strlit("]");
    let t = type_text(d, sz);
    let name = dtype_name(d);
    lemma_type_text_chars(d, sz);
    lemma_name_chars(d);
    lemma_dtype_name_round_trip(d);
    assert(is_ascii_chars(t)) by {
        assert forall|j: int| 0 <= j < t.len() implies '\0' <= #[trigger] t[j] <= '\u{7f}' by {
            let c = t[j];
            assert(ascii_alphanumeric(c) || c == '[' || c == ']');
            lemma_code_ascii(c);
        }
    }
    assert(!white_space(t[t.len() - 1])) by {
        let c = t[t.len() - 1];
        assert(ascii_alphanumeric(c) || c == '[' || c == ']');
    }
    lemma_trim_ends(t);
    assert forall|j: int| 0 <= j < t.len() implies valid_char(#[trigger] t[j]) by {
        let c = t[j];
        assert(ascii_alphanumeric(c) || c == '[' || c == ']');
    }
    lemma_no_invalid_chars(t);
    assert(spec_validated_trimmed(t) == Ok::<Seq<char>, ElucidatorErrorV>(t));
    assert(is_ascii_chars(name)) by {
        assert forall|j: int| 0 <= j < name.len() implies '\0' <= #[trigger] name[j] <= '\u{7f}' by {
            assert(ascii_alphanumeric(name[j]));
            lemma_code_ascii(name[j]);
        }
    }
    assert(!white_space(name[name.len() - 1])) by {
        assert(ascii_alphanumeric(name[name.len() - 1]));
    }
    assert(!white_space(name[0])) by {
        assert(ascii_alphanumeric(name[0]));
    }
    lemma_trim_ends(name);
    assert(spec_dtype_from(name) == Ok::<Dtype, ElucidatorErrorV>(d));
    assert forall|j: int| 0 <= j < name.len() implies #[trigger] name[j] != '[' by {
        assert(ascii_alphanumeric(name[j]));
    }
    match sz {
        Sizing::Singleton => {
            assert(t =~= name);
            lemma_first_index(t, '[', t.len() as int);
        },
        Sizing::Dynamic => {
            assert(t =~= name + seq!['['] + seq![']']);
            lemma_first_at(name, seq![']'], '[');
            assert(t.subrange(0, name.len() as int) =~= name);
            assert(t.subrange(name.len() as int + 1, t.len() - 1) =~= Seq::<char>::empty());
            assert(all_white(Seq::<char>::empty()));
        },
        Sizing::Fixed(n) => {
            let ds = decimal(n as nat);
            lemma_decimal_digits(n as nat);
            assert(t =~= name + seq!['['] + (ds + seq![']']));
            lemma_first_at(name, ds + seq![']'], '[');
            assert(t.subrange(0, name.len() as int) =~= name);
            assert(t.subrange(name.len() as int + 1, t.len() - 1) =~= ds);
            assert(parse_u64(ds) == Some(n));
        },
    }
}

/// Law: the written form of a member whose identifier is ASCII (a letter, then letters, digits
/// or `_`), with a legal sizing, reads back through `MemberSpecification::from` as the member.
#[verifier::spinoff_prover]
#[verifier::rlimit(60)]
pub proof fn lemma_member_text_read_by_from(m: MemberV)
    requires
        ascii_identifier(m.identifier),
        legal_sizing(m.sizing, m.dtype),
    ensures
        spec_member_from(member_text(m)) == Ok::<MemberV, ElucidatorErrorV>(m),
{
    reveal_strlit(": ");
    let id = m.identifier;
    let tt = type_text(m.dtype, m.sizing);
    let ty = seq![' '] + tt;
    let x = member_text(m);
    assert(x =~= id + seq![':'] + ty);
    lemma_type_text_chars(m.dtype, m.sizing);
    lemma_type_text_reads_back(m.dtype, m.sizing);
    assert forall|j: int| 0 <= j < id.len() implies {
        let c = #[trigger] id[j];
        ascii_alphanumeric(c) || c == '_'
    } by {
        assert(crate::validating::identifier_char(id[j]));
    }
    assert(is_ascii_chars(id)) by {
        assert forall|j: int| 0 <= j < id.len() implies '\0' <= #[trigger] id[j] <= '\u{7f}' by {
            assert(ascii_alphanumeric(id[j]) || id[j] == '_');
            lemma_code_ascii(id[j]);
        }
    }
    assert(is_ascii_chars(tt)) by {
        assert forall|j: int| 0 <= j < tt.len() implies '\0' <= #[trigger] tt[j] <= '\u{7f}' by {
            let c = tt[j];
            assert(ascii_alphanumeric(c) || c == '[' || c == ']');
            lemma_code_ascii(c);
        }
    }
    assert(is_ascii_chars(seq![' '])) by {
        assert(seq![' '][0] == ' ');
    }
    lemma_ascii_concat(seq![' '], tt);
    lemma_ascii_concat(id, seq![':']);
    lemma_ascii_concat(id + seq![':'], ty);
    assert(!white_space(x[0])) by {
        assert(x[0] == id[0]);
        assert(ascii_letter(id[0]));
    }
    assert(!white_space(x[x.len() - 1])) by {
        assert(x[x.len() - 1] == tt[tt.len() - 1]);
        let c = tt[tt.len() - 1];
        assert(ascii_alphanumeric(c) || c == '[' || c == ']');
    }
    lemma_trim_ends(x);
    assert forall|j: int| 0 <= j < id.len() implies #[trigger] id[j] != ':' by {
        assert(ascii_alphanumeric(id[j]) || id[j] == '_');
    }
    lemma_first_at(id, ty, ':');
    assert(x.subrange(0, id.len() as int) =~= id);
    assert(x.subrange(id.len() as int + 1, x.len() as int) =~= ty);
    assert(!white_space(id[0])) by {
        assert(ascii_letter(id[0]));
    }
    assert(!white_space(id[id.len() - 1])) by {
        assert(ascii_alphanumeric(id[id.len() - 1]) || id[id.len() - 1] == '_');
    }
    lemma_trim_ends(id);
    assert forall|j: int| 0 <= j < id.len() implies valid_char(#[trigger] id[j]) by {
        assert(ascii_alphanumeric(id[j]) || id[j] == '_');
    }
    lemma_no_invalid_chars(id);
    assert forall|j: int| 0 <= j < id.len() implies #[trigger] id[j] != '[' && id[j] != ']' by {
        assert(ascii_alphanumeric(id[j]) || id[j] == '_');
    }
    lemma_no_brackets(id);
    assert(!has_white(id)) by {
        assert forall|j: int| 0 <= j < id.len() implies !white_space(#[trigger] id[j]) by {
            assert(ascii_alphanumeric(id[j]) || id[j] == '_');
        }
    }
    assert(alphabetic(id[0]));
    assert(spec_validate_identifier(id) == Ok::<Seq<char>, ElucidatorErrorV>(id));
    let e = Seq::<char>::empty();
    assert(all_white(seq![' '])) by {
        assert(seq![' '][0] == ' ');
    }
    assert(ty =~= seq![' '] + tt + e);
    lemma_trim_padded(seq![' '], tt, e);
    lemma_typespec_by_trim(ty);
    lemma_trim_ends(tt);
}

} // verus!
