//! Checks on text shared by the parsers of member and type specifications.
use vstd::prelude::*;
use vstd::string::*;
use vstd::utf8::is_ascii_chars;
use crate::error::{ElucidatorError, ElucidatorErrorV, ParsingFailure, ParsingFailureV};
use crate::text::{
    alphabetic, alphanumeric, chars_of, is_alphabetic, is_alphanumeric, is_whitespace, trim,
    trim_bounds, white_space,
};

verus! {

/// A buffer holds exactly `expected` bytes.
pub fn buff_size_or_err(buffer: &[u8], expected: usize) -> (r: Result<usize, ElucidatorError>)
    ensures
        buffer@.len() == expected ==> r == Ok::<usize, ElucidatorError>(expected),
        buffer@.len() != expected ==> (r matches Err(e) && e@ == (ElucidatorErrorV::BufferSizing {
            expected,
            found: buffer@.len() as usize,
        })),
{
    if buffer.len() != expected {
        Err(ElucidatorError::BufferSizing { expected, found: buffer.len() })
    } else {
        Ok(expected)
    }
}

/// The text is ASCII, else the error names all of it.
pub fn ascii_or_err(s: &str) -> (r: Result<(), ElucidatorError>)
    ensures
        is_ascii_chars(s@) ==> r is Ok,
        !is_ascii_chars(s@) ==> (r matches Err(e) && e@ == (ElucidatorErrorV::Parsing {
            offender: s@,
            reason: ParsingFailureV::NonAsciiEncoding,
        })),
{
    if !s.is_ascii() {
        Err(ElucidatorError::Parsing { offender: s.to_owned(), reason: ParsingFailure::NonAsciiEncoding })
    } else {
        Ok(())
    }
}

/// What `ascii_trimmed_or_err` gives: the trimmed text of an ASCII text.
pub open spec fn spec_ascii_trimmed(s: Seq<char>) -> Result<Seq<char>, ElucidatorErrorV> {
    if is_ascii_chars(s) {
        Ok(trim(s))
    } else {
        Err(ElucidatorErrorV::Parsing { offender: s, reason: ParsingFailureV::NonAsciiEncoding })
    }
}

/// The trimmed text, if the text is ASCII.
pub fn ascii_trimmed_or_err(s: &str) -> (r: Result<&str, ElucidatorError>)
    ensures
        r matches Ok(t) ==> spec_ascii_trimmed(s@) == Ok::<Seq<char>, ElucidatorErrorV>(t@),
        r matches Err(e) ==> spec_ascii_trimmed(s@) == Err::<Seq<char>, ElucidatorErrorV>(e@),
{
    ascii_or_err(s)?;
    let v = chars_of(s);
    let (a, b) = trim_bounds(v.as_slice());
    Ok(s.substring_char(a, b))
}

/// The characters allowed in specification text.
pub open spec fn valid_char(c: char) -> bool {
    alphanumeric(c) || c == '_' || c == '[' || c == ']' || white_space(c)
}

pub fn is_valid_char(c: char) -> (b: bool)
    ensures
        b == valid_char(c),
{
    is_alphanumeric(c) || c == '_' || c == '[' || c == ']' || is_whitespace(c)
}

/// The characters of `s` that are not allowed, in order.
pub open spec fn invalid_chars(s: Seq<char>) -> Seq<char>
    decreases s.len(),
{
    if s.len() == 0 {
        Seq::empty()
    } else if valid_char(s.last()) {
        invalid_chars(s.drop_last())
    } else {
        invalid_chars(s.drop_last()).push(s.last())
    }
}

/// The square brackets of `s`, in order.
pub open spec fn bracket_chars(s: Seq<char>) -> Seq<char>
    decreases s.len(),
{
    if s.len() == 0 {
        Seq::empty()
    } else if s.last() == '[' || s.last() == ']' {
        bracket_chars(s.drop_last()).push(s.last())
    } else {
        bracket_chars(s.drop_last())
    }
}

/// The characters of `r` that come before `c`.
pub open spec fn chars_below(r: Seq<char>, c: char) -> Seq<char>
    decreases r.len(),
{
    if r.len() == 0 {
        Seq::empty()
    } else if (r.last() as u32) < (c as u32) {
        chars_below(r.drop_last(), c).push(r.last())
    } else {
        chars_below(r.drop_last(), c)
    }
}

/// The characters of `r` that come after `c`.
pub open spec fn chars_above(r: Seq<char>, c: char) -> Seq<char>
    decreases r.len(),
{
    if r.len() == 0 {
        Seq::empty()
    } else if (r.last() as u32) > (c as u32) {
        chars_above(r.drop_last(), c).push(r.last())
    } else {
        chars_above(r.drop_last(), c)
    }
}

/// `c` put into its place in the ordered list `r`, unless it is there already.
pub open spec fn insert_sorted(r: Seq<char>, c: char) -> Seq<char> {
    if r.contains(c) {
        r
    } else {
        chars_below(r, c) + seq![c] + chars_above(r, c)
    }
}

/// The white-space characters of `s`, each once, in the order of their code points.
pub open spec fn sorted_white(s: Seq<char>) -> Seq<char>
    decreases s.len(),
{
    if s.len() == 0 {
        Seq::empty()
    } else if white_space(s.last()) {
        insert_sorted(sorted_white(s.drop_last()), s.last())
    } else {
        sorted_white(s.drop_last())
    }
}

pub open spec fn has_white(s: Seq<char>) -> bool {
    exists|i: int| 0 <= i < s.len() && white_space(#[trigger] s[i])
}

/// What `validated_trimmed_or_err` gives: the trimmed text, when it is ASCII and every
/// character is allowed.
pub open spec fn spec_validated_trimmed(s: Seq<char>) -> Result<Seq<char>, ElucidatorErrorV> {
    match spec_ascii_trimmed(s) {
        Err(e) => Err(e),
        Ok(t) => if invalid_chars(t).len() == 0 {
            Ok(t)
        } else {
            Err(
                ElucidatorErrorV::Parsing {
                    offender: s,
                    reason: ParsingFailureV::IllegalCharacters(invalid_chars(t)),
                },
            )
        },
    }
}

/// What `validate_identifier` gives: the trimmed identifier, when it is made of letters, digits
/// and underscores and starts with a letter.
pub open spec fn spec_validate_identifier(s: Seq<char>) -> Result<Seq<char>, ElucidatorErrorV> {
    match spec_validated_trimmed(s) {
        Err(e) => Err(e),
        Ok(t) => if bracket_chars(t).len() > 0 {
            Err(
                ElucidatorErrorV::Parsing {
                    offender: s,
                    reason: ParsingFailureV::IllegalCharacters(bracket_chars(t)),
                },
            )
        } else if has_white(t) {
            Err(
                ElucidatorErrorV::Parsing {
                    offender: s,
                    reason: ParsingFailureV::IllegalCharacters(sorted_white(t)),
                },
            )
        } else if t.len() == 0 {
            Err(
                ElucidatorErrorV::Parsing {
                    offender: s,
                    reason: ParsingFailureV::UnexpectedEndOfExpression,
                },
            )
        } else if !alphabetic(t[0]) {
            Err(
                ElucidatorErrorV::Parsing {
                    offender: s,
                    reason: ParsingFailureV::IdentifierStartsNonAlphabetical,
                },
            )
        } else {
            Ok(t)
        },
    }
}

fn collect_invalid(v: &Vec<char>) -> (r: Vec<char>)
    ensures
        r@ == invalid_chars(v@),
{
    let mut r: Vec<char> = Vec::new();
    let mut i: usize = 0;
    while i < v.len()
        invariant
            i <= v@.len(),
            r@ == invalid_chars(v@.subrange(0, i as int)),
        decreases v.len() - i,
    {
        let ghost s = v@.subrange(0, i + 1);
        assert(s.drop_last() =~= v@.subrange(0, i as int));
        if !is_valid_char(v[i]) {
            r.push(v[i]);
        }
        i = i + 1;
    }
    assert(v@.subrange(0, v@.len() as int) =~= v@);
    r
}

fn collect_brackets(v: &Vec<char>) -> (r: Vec<char>)
    ensures
        r@ == bracket_chars(v@),
{
    let mut r: Vec<char> = Vec::new();
    let mut i: usize = 0;
    while i < v.len()
        invariant
            i <= v@.len(),
            r@ == bracket_chars(v@.subrange(0, i as int)),
        decreases v.len() - i,
    {
        let ghost s = v@.subrange(0, i + 1);
        assert(s.drop_last() =~= v@.subrange(0, i as int));
        if v[i] == '[' || v[i] == ']' {
            r.push(v[i]);
        }
        i = i + 1;
    }
    assert(v@.subrange(0, v@.len() as int) =~= v@);
    r
}

pub(crate) fn insert_sorted_exec(r: &Vec<char>, c: char) -> (out: Vec<char>)
    ensures
        out@ == insert_sorted(r@, c),
{
    let mut i: usize = 0;
    while i < r.len()
        invariant
            i <= r@.len(),
            forall|j: int| 0 <= j < i ==> r@[j] != c,
        decreases r.len() - i,
    {
        if r[i] == c {
            assert(r@.contains(c));
            let mut copy: Vec<char> = Vec::new();
            let mut k: usize = 0;
            while k < r.len()
                invariant
                    k <= r@.len(),
                    copy@ == r@.subrange(0, k as int),
                decreases r.len() - k,
            {
                copy.push(r[k]);
                k = k + 1;
            }
            assert(r@.subrange(0, r@.len() as int) =~= r@);
            return copy;
        }
        i = i + 1;
    }
    assert(!r@.contains(c));
    let mut below: Vec<char> = Vec::new();
    let mut above: Vec<char> = Vec::new();
    let mut k: usize = 0;
    while k < r.len()
        invariant
            k <= r@.len(),
            below@ == chars_below(r@.subrange(0, k as int), c),
            above@ == chars_above(r@.subrange(0, k as int), c),
        decreases r.len() - k,
    {
        let ghost s = r@.subrange(0, k + 1);
        assert(s.drop_last() =~= r@.subrange(0, k as int));
        if (r[k] as u32) < (c as u32) {
            below.push(r[k]);
        } else if (r[k] as u32) > (c as u32) {
            above.push(r[k]);
        }
        k = k + 1;
    }
    assert(r@.subrange(0, r@.len() as int) =~= r@);
    below.push(c);
    let mut m: usize = 0;
    let ghost b = below@;
    while m < above.len()
        invariant
            m <= above@.len(),
            below@ == b + above@.subrange(0, m as int),
        decreases above.len() - m,
    {
        below.push(above[m]);
        m = m + 1;
        assert(below@ =~= b + above@.subrange(0, m as int));
    }
    assert(above@.subrange(0, above@.len() as int) =~= above@);
    below
}

fn collect_sorted_white(v: &Vec<char>) -> (r: Vec<char>)
    ensures
        r@ == sorted_white(v@),
{
    let mut r: Vec<char> = Vec::new();
    let mut i: usize = 0;
    while i < v.len()
        invariant
            i <= v@.len(),
            r@ == sorted_white(v@.subrange(0, i as int)),
        decreases v.len() - i,
    {
        let ghost s = v@.subrange(0, i + 1);
        assert(s.drop_last() =~= v@.subrange(0, i as int));
        if is_whitespace(v[i]) {
            r = insert_sorted_exec(&r, v[i]);
        }
        i = i + 1;
    }
    assert(v@.subrange(0, v@.len() as int) =~= v@);
    r
}

/// The trimmed text, if it is ASCII and holds only letters, digits, underscores, square brackets
/// and white space; else the error names the text and lists the other characters.
pub fn validated_trimmed_or_err(s: &str) -> (r: Result<&str, ElucidatorError>)
    ensures
        r matches Ok(t) ==> spec_validated_trimmed(s@) == Ok::<Seq<char>, ElucidatorErrorV>(t@),
        r matches Err(e) ==> spec_validated_trimmed(s@) == Err::<Seq<char>, ElucidatorErrorV>(e@),
{
    let trimmed = ascii_trimmed_or_err(s)?;
    let v = chars_of(trimmed);
    let illegal_chars = collect_invalid(&v);
    if illegal_chars.len() == 0 {
        Ok(trimmed)
    } else {
        Err(
            ElucidatorError::Parsing {
                offender: s.to_owned(),
                reason: ParsingFailure::IllegalCharacters(illegal_chars),
            },
        )
    }
}

/// The trimmed identifier, if it is ASCII, made of letters, digits and underscores, and starts
/// with a letter; else the error names the text as given.
pub fn validate_identifier(s: &str) -> (r: Result<&str, ElucidatorError>)
    ensures
        r matches Ok(t) ==> spec_validate_identifier(s@) == Ok::<Seq<char>, ElucidatorErrorV>(t@),
        r matches Err(e) ==> spec_validate_identifier(s@) == Err::<Seq<char>, ElucidatorErrorV>(e@),
{
    let ss = validated_trimmed_or_err(s)?;
    let v = chars_of(ss);
    let brackets = collect_brackets(&v);
    if brackets.len() > 0 {
        return Err(
            ElucidatorError::Parsing {
                offender: s.to_owned(),
                reason: ParsingFailure::IllegalCharacters(brackets),
            },
        );
    }
    let mut any_white = false;
    let mut i: usize = 0;
    while i < v.len()
        invariant
            i <= v@.len(),
            any_white <==> exists|j: int| 0 <= j < i && white_space(#[trigger] v@[j]),
        decreases v.len() - i,
    {
        if is_whitespace(v[i]) {
            any_white = true;
        }
        i = i + 1;
    }
    if any_white {
        let illegal_chars = collect_sorted_white(&v);
        return Err(
            ElucidatorError::Parsing {
                offender: s.to_owned(),
                reason: ParsingFailure::IllegalCharacters(illegal_chars),
            },
        );
    }
    if v.len() == 0 {
        return Err(
            ElucidatorError::Parsing {
                offender: s.to_owned(),
                reason: ParsingFailure::UnexpectedEndOfExpression,
            },
        );
    }
    if !is_alphabetic(v[0]) {
        return Err(
            ElucidatorError::Parsing {
                offender: s.to_owned(),
                reason: ParsingFailure::IdentifierStartsNonAlphabetical,
            },
        );
    }
    Ok(ss)
}

} // verus!
