//! Character classes, trimming, and string building over sequences of characters.
use vstd::prelude::*;
use vstd::string::*;

verus! {

/// The characters with the Unicode `White_Space` property: the controls U+0009 to U+000D, the
/// space, U+0085, U+00A0, U+1680, U+2000 to U+200A, U+2028, U+2029, U+202F, U+205F and U+3000.
pub open spec fn white_space(c: char) -> bool {
    let u = c as u32;
    ||| 9 <= u <= 13
    ||| u == 32
    ||| u == 0x85
    ||| u == 0xa0
    ||| u == 0x1680
    ||| 0x2000 <= u <= 0x200a
    ||| u == 0x2028
    ||| u == 0x2029
    ||| u == 0x202f
    ||| u == 0x205f
    ||| u == 0x3000
}

/// Holds of the non-ASCII characters with the Unicode `Alphabetic` property; named after what
/// `char::is_alphabetic` returns for them.
pub uninterp spec fn unicode_alphabetic(c: char) -> bool;

/// Holds of the non-ASCII characters that are alphabetic or numeric; named after what
/// `char::is_alphanumeric` returns for them.
pub uninterp spec fn unicode_alphanumeric(c: char) -> bool;

/// The ASCII letters.
pub open spec fn ascii_letter(c: char) -> bool {
    ('a' <= c <= 'z') || ('A' <= c <= 'Z')
}

/// The characters with the Unicode `Alphabetic` property: among ASCII characters exactly the
/// letters.
pub open spec fn alphabetic(c: char) -> bool {
    if (c as u32) < 128 {
        ascii_letter(c)
    } else {
        unicode_alphabetic(c)
    }
}

/// The alphabetic or numeric characters: among ASCII characters exactly the letters and digits.
pub open spec fn alphanumeric(c: char) -> bool {
    if (c as u32) < 128 {
        ascii_letter(c) || ('0' <= c <= '9')
    } else {
        unicode_alphanumeric(c)
    }
}

/// Tells whether `c` has the Unicode `White_Space` property, as `char::is_whitespace` does.
pub fn is_whitespace(c: char) -> (b: bool)
    ensures
        b == white_space(c),
{
    let u = c as u32;
    (9 <= u && u <= 13) || u == 32 || u == 0x85 || u == 0xa0 || u == 0x1680 || (0x2000 <= u && u <= 0x200a)
        || u == 0x2028 || u == 0x2029 || u == 0x202f || u == 0x205f || u == 0x3000
}

/// Calls `char::is_alphabetic`, which holds of the characters with the Unicode `Alphabetic`
/// property: among ASCII characters exactly the letters; beyond ASCII the result is named
/// `unicode_alphabetic(c)`.
#[verifier::external_body]
pub(crate) fn is_alphabetic(c: char) -> (b: bool)
    ensures
        b == alphabetic(c),
        (c as u32) >= 128 ==> b == unicode_alphabetic(c),
{
    c.is_alphabetic()
}

/// Calls `char::is_alphanumeric`, alphabetic or numeric: among ASCII characters exactly the
/// letters and digits; beyond ASCII the result is named `unicode_alphanumeric(c)`.
#[verifier::external_body]
pub(crate) fn is_alphanumeric(c: char) -> (b: bool)
    ensures
        b == alphanumeric(c),
        (c as u32) >= 128 ==> b == unicode_alphanumeric(c),
{
    c.is_alphanumeric()
}

/// Calls `String::push`, which appends one character to the string.
#[verifier::external_body]
pub(crate) fn push_char(s: &mut String, c: char)
    ensures
        final(s)@ == old(s)@.push(c),
{
    s.push(c)
}

/// ASCII letters and digits.
pub open spec fn ascii_alphanumeric(c: char) -> bool {
    let u = c as u32;
    (48 <= u <= 57) || (65 <= u <= 90) || (97 <= u <= 122)
}

pub open spec fn ascii_char(c: char) -> bool {
    (c as u32) < 128
}

pub open spec fn all_ascii(s: Seq<char>) -> bool {
    forall|i: int| 0 <= i < s.len() ==> ascii_char(#[trigger] s[i])
}

pub fn is_ascii_alphanumeric(c: char) -> (b: bool)
    ensures
        b == ascii_alphanumeric(c),
{
    let u = c as u32;
    (48 <= u && u <= 57) || (65 <= u && u <= 90) || (97 <= u && u <= 122)
}

pub fn is_ascii_char(c: char) -> (b: bool)
    ensures
        b == ascii_char(c),
{
    (c as u32) < 128
}

/// Every character of `s` is white space (in particular, the empty sequence).
pub open spec fn all_white(s: Seq<char>) -> bool {
    forall|i: int| 0 <= i < s.len() ==> white_space(#[trigger] s[i])
}

/// The number of white-space characters at the front of `s`.
pub open spec fn leading_white(s: Seq<char>) -> nat
    decreases s.len(),
{
    if s.len() == 0 {
        0
    } else if white_space(s[0]) {
        1 + leading_white(s.drop_first())
    } else {
        0
    }
}

/// The number of white-space characters at the back of `s`.
pub open spec fn trailing_white(s: Seq<char>) -> nat
    decreases s.len(),
{
    if s.len() == 0 {
        0
    } else if white_space(s.last()) {
        1 + trailing_white(s.drop_last())
    } else {
        0
    }
}

/// `s` without its leading and trailing white space, as `str::trim` gives it.
pub open spec fn trim(s: Seq<char>) -> Seq<char> {
    if all_white(s) {
        Seq::empty()
    } else {
        s.subrange(leading_white(s) as int, s.len() - trailing_white(s))
    }
}

pub proof fn lemma_leading_white(s: Seq<char>, k: int)
    requires
        0 <= k <= s.len(),
        forall|j: int| 0 <= j < k ==> white_space(#[trigger] s[j]),
        k == s.len() || !white_space(s[k]),
    ensures
        leading_white(s) == k,
    decreases k,
{
    if k > 0 {
        let t = s.drop_first();
        assert forall|j: int| 0 <= j < k - 1 implies white_space(#[trigger] t[j]) by {
            assert(t[j] == s[j + 1]);
        }
        if k < s.len() {
            assert(t[k - 1] == s[k]);
        }
        assert(white_space(s[0]));
        lemma_leading_white(t, k - 1);
    }
}

pub proof fn lemma_trailing_white(s: Seq<char>, k: int)
    requires
        0 <= k <= s.len(),
        forall|j: int| s.len() - k <= j < s.len() ==> white_space(#[trigger] s[j]),
        k == s.len() || !white_space(s[s.len() - k - 1]),
    ensures
        trailing_white(s) == k,
    decreases k,
{
    if k > 0 {
        let t = s.drop_last();
        assert forall|j: int| t.len() - (k - 1) <= j < t.len() implies white_space(#[trigger] t[j]) by {
            assert(t[j] == s[j]);
        }
        if k < s.len() {
            assert(t[t.len() - (k - 1) - 1] == s[s.len() - k - 1]);
        }
        assert(white_space(s[s.len() - 1]));
        lemma_trailing_white(t, k - 1);
    }
}

/// The characters of `s`, in order.
pub fn chars_of(s: &str) -> (v: Vec<char>)
    ensures
        v@ == s@,
{
    let n = s.unicode_len();
    let mut v: Vec<char> = Vec::new();
    let mut i: usize = 0;
    while i < n
        invariant
            n == s@.len(),
            i <= n,
            v@ == s@.subrange(0, i as int),
        decreases n - i,
    {
        let c = s.get_char(i);
        v.push(c);
        i = i + 1;
    }
    v
}

/// A string holding the characters `v[from..to]`.
pub fn string_of(v: &[char], from: usize, to: usize) -> (s: String)
    requires
        from <= to <= v@.len(),
    ensures
        s@ == v@.subrange(from as int, to as int),
{
    let mut s = String::new();
    let mut i = from;
    while i < to
        invariant
            from <= i <= to <= v@.len(),
            s@ == v@.subrange(from as int, i as int),
        decreases to - i,
    {
        push_char(&mut s, v[i]);
        i = i + 1;
    }
    s
}

/// Appends `t` to `s`.
pub fn push_str(s: &mut String, t: &str)
    ensures
        final(s)@ == old(s)@ + t@,
{
    s.append(t);
}

/// Appends the characters of `t` to `s`.
pub fn push_chars(s: &mut String, t: &[char])
    ensures
        final(s)@ == old(s)@ + t@,
{
    let mut i: usize = 0;
    while i < t.len()
        invariant
            i <= t@.len(),
            s@ == old(s)@ + t@.subrange(0, i as int),
        decreases t.len() - i,
    {
        push_char(s, t[i]);
        i = i + 1;
        assert(t@.subrange(0, i as int) =~= t@.subrange(0, i - 1).push(t@[i - 1]));
    }
    assert(t@.subrange(0, t@.len() as int) =~= t@);
}

/// The decimal digit for `d < 10`.
pub open spec fn digit_char(d: nat) -> char {
    (48 + d) as char
}

/// The decimal notation of `n`, as `Display` writes an unsigned integer.
pub open spec fn decimal(n: nat) -> Seq<char>
    decreases n,
{
    if n < 10 {
        seq![digit_char(n)]
    } else {
        decimal(n / 10).push(digit_char(n % 10))
    }
}

/// Appends the decimal notation of `n` to `s`.
pub fn push_decimal(s: &mut String, n: u64)
    ensures
        final(s)@ == old(s)@ + decimal(n as nat),
    decreases n,
{
    if n >= 10 {
        push_decimal(s, n / 10);
    }
    let d = (n % 10) as u8;
    let c = (48 + d) as char;
    push_char(s, c);
    assert(c == digit_char((n % 10) as nat));
}

/// Index of the first character of `v` that is not white space, if there is one.
pub fn first_non_white(v: &[char]) -> (r: Option<usize>)
    ensures
        r is None ==> all_white(v@) && leading_white(v@) == v@.len(),
        r matches Some(k) ==> k < v@.len() && !white_space(v@[k as int]) && leading_white(v@) == k
            && !all_white(v@),
{
    let mut i: usize = 0;
    while i < v.len()
        invariant
            i <= v@.len(),
            forall|j: int| 0 <= j < i ==> white_space(#[trigger] v@[j]),
        decreases v.len() - i,
    {
        if !is_whitespace(v[i]) {
            proof {
                lemma_leading_white(v@, i as int);
            }
            return Some(i);
        }
        i = i + 1;
    }
    proof {
        lemma_leading_white(v@, i as int);
    }
    None
}

/// One past the index of the last character of `v` that is not white space (0 when there is
/// none).
pub fn end_non_white(v: &[char]) -> (r: usize)
    ensures
        r <= v@.len(),
        r == v@.len() - trailing_white(v@),
        r > 0 ==> !white_space(v@[r - 1]),
        forall|j: int| r <= j < v@.len() ==> white_space(#[trigger] v@[j]),
{
    let mut i: usize = v.len();
    while i > 0
        invariant
            i <= v@.len(),
            forall|j: int| i <= j < v@.len() ==> white_space(#[trigger] v@[j]),
        decreases i,
    {
        if !is_whitespace(v[i - 1]) {
            proof {
                lemma_trailing_white(v@, v@.len() - i);
            }
            return i;
        }
        i = i - 1;
    }
    proof {
        lemma_trailing_white(v@, v@.len() as int);
    }
    0
}

/// Bounds `(a, b)` such that `v[a..b]` is `trim(v)`.
pub fn trim_bounds(v: &[char]) -> (r: (usize, usize))
    ensures
        r.0 <= r.1 <= v@.len(),
        v@.subrange(r.0 as int, r.1 as int) == trim(v@),
        r.0 == leading_white(v@) || all_white(v@),
        all_white(v@) <==> r.0 == r.1,
        !all_white(v@) ==> r.0 == leading_white(v@) && r.1 == v@.len() - trailing_white(v@),
{
    match first_non_white(v) {
        None => (0, 0),
        Some(a) => {
            let b = end_non_white(v);
            assert(a < b) by {
                if b <= a {
                    assert(white_space(v@[a as int]));
                }
            }
            (a, b)
        },
    }
}

pub open spec fn is_digit(c: char) -> bool {
    48 <= (c as u32) <= 57
}

pub open spec fn all_digits(s: Seq<char>) -> bool {
    forall|i: int| 0 <= i < s.len() ==> is_digit(#[trigger] s[i])
}

/// The number that the decimal digits `s` write.
pub open spec fn digits_value(s: Seq<char>) -> nat
    decreases s.len(),
{
    if s.len() == 0 {
        0
    } else {
        digits_value(s.drop_last()) * 10 + ((s.last() as u32) - 48) as nat
    }
}

/// What `str::parse::<u64>` gives: an optional `+` and then at least one decimal digit, whose
/// value fits in a `u64`.
pub open spec fn parse_u64(s: Seq<char>) -> Option<u64> {
    let d = if s.len() > 0 && s[0] == '+' {
        s.drop_first()
    } else {
        s
    };
    if d.len() > 0 && all_digits(d) && digits_value(d) <= u64::MAX {
        Some(digits_value(d) as u64)
    } else {
        None
    }
}

proof fn lemma_digits_value_grows(s: Seq<char>, k: int)
    requires
        0 <= k <= s.len(),
        all_digits(s),
    ensures
        digits_value(s.subrange(0, k)) <= digits_value(s),
    decreases s.len() - k,
{
    if k < s.len() {
        let t = s.subrange(0, k + 1);
        assert(t.drop_last() =~= s.subrange(0, k));
        assert(is_digit(s[k]));
        lemma_digits_value_grows(s, k + 1);
    } else {
        assert(s.subrange(0, k) =~= s);
    }
}

/// Parses `v[from..to]` as `str::parse::<u64>` does.
pub fn parse_u64_chars(v: &[char], from: usize, to: usize) -> (r: Option<u64>)
    requires
        from <= to <= v@.len(),
    ensures
        r == parse_u64(v@.subrange(from as int, to as int)),
{
    let ghost s = v@.subrange(from as int, to as int);
    let mut start = from;
    if from < to && v[from] == '+' {
        start = from + 1;
    }
    let ghost d = v@.subrange(start as int, to as int);
    assert(d == (if s.len() > 0 && s[0] == '+' { s.drop_first() } else { s }));
    if start == to {
        return None;
    }
    let mut acc: u64 = 0;
    let mut i = start;
    while i < to
        invariant
            start <= i <= to <= v@.len(),
            start < to,
            s == v@.subrange(from as int, to as int),
            d == v@.subrange(start as int, to as int),
            d == (if s.len() > 0 && s[0] == '+' { s.drop_first() } else { s }),
            all_digits(v@.subrange(start as int, i as int)),
            acc == digits_value(v@.subrange(start as int, i as int)),
        decreases to - i,
    {
        let c = v[i];
        let u = c as u32;
        if u < 48 || u > 57 {
            assert(d[i - start] == c);
            assert(!is_digit(d[i - start]));
            return None;
        }
        let dg = (u - 48) as u64;
        let ghost t = v@.subrange(start as int, i + 1);
        assert(t.drop_last() =~= v@.subrange(start as int, i as int));
        if acc > (u64::MAX - dg) / 10 {
            proof {
                assert(digits_value(t) > u64::MAX) by (nonlinear_arith)
                    requires
                        digits_value(t) == acc * 10 + dg,
                        acc > (u64::MAX - dg) / 10,
                        dg <= 9,
                ;
                if all_digits(d) {
                    assert(t =~= d.subrange(0, i + 1 - start));
                    lemma_digits_value_grows(d, i + 1 - start);
                }
            }
            return None;
        }
        acc = acc * 10 + dg;
        i = i + 1;
    }
    Some(acc)
}

/// The index of the first `c` in `s`, if there is one.
pub open spec fn first_index(s: Seq<char>, c: char) -> Option<int>
    decreases s.len(),
{
    if s.len() == 0 {
        None
    } else if s[0] == c {
        Some(0)
    } else {
        match first_index(s.drop_first(), c) {
            Some(k) => Some(k + 1),
            None => None,
        }
    }
}

pub proof fn lemma_first_index(s: Seq<char>, c: char, k: int)
    requires
        0 <= k <= s.len(),
        forall|j: int| 0 <= j < k ==> #[trigger] s[j] != c,
        k == s.len() || s[k] == c,
    ensures
        first_index(s, c) == (if k == s.len() { None } else { Some(k) }),
    decreases k,
{
    if k > 0 {
        let t = s.drop_first();
        assert forall|j: int| 0 <= j < k - 1 implies #[trigger] t[j] != c by {
            assert(t[j] == s[j + 1]);
        }
        if k < s.len() {
            assert(t[k - 1] == s[k]);
        }
        assert(s[0] != c);
        lemma_first_index(t, c, k - 1);
    }
}

pub proof fn lemma_first_index_props(s: Seq<char>, c: char)
    ensures
        first_index(s, c) matches Some(k) ==> 0 <= k < s.len() && s[k] == c && forall|j: int|
            0 <= j < k ==> #[trigger] s[j] != c,
        first_index(s, c) is None ==> forall|j: int| 0 <= j < s.len() ==> #[trigger] s[j] != c,
    decreases s.len(),
{
    if s.len() > 0 && s[0] != c {
        let t = s.drop_first();
        lemma_first_index_props(t, c);
        assert forall|j: int| 1 <= j < s.len() implies #[trigger] s[j] == t[j - 1] by {}
    }
}

/// UTF-8 encoding of a concatenation is the concatenation of the encodings.
pub proof fn lemma_encode_utf8_concat(a: Seq<char>, b: Seq<char>)
    ensures
        vstd::utf8::encode_utf8(a + b) == vstd::utf8::encode_utf8(a) + vstd::utf8::encode_utf8(b),
    decreases a.len(),
{
    if a.len() == 0 {
        assert(a + b =~= b);
        assert(vstd::utf8::encode_utf8(a) =~= Seq::<u8>::empty());
        assert(vstd::utf8::encode_utf8(a) + vstd::utf8::encode_utf8(b) =~= vstd::utf8::encode_utf8(b));
    } else {
        assert((a + b).drop_first() =~= a.drop_first() + b);
        assert((a + b)[0] == a[0]);
        lemma_encode_utf8_concat(a.drop_first(), b);
        assert(vstd::utf8::encode_utf8(a + b) =~= vstd::utf8::encode_scalar(a[0] as u32)
            + vstd::utf8::encode_utf8(a.drop_first() + b));
    }
}

/// Every character takes at least one byte in UTF-8.
pub proof fn lemma_encode_utf8_len(a: Seq<char>)
    ensures
        vstd::utf8::encode_utf8(a).len() >= a.len(),
    decreases a.len(),
{
    if a.len() > 0 {
        lemma_encode_utf8_len(a.drop_first());
    }
}

pub proof fn lemma_leading_white_props(s: Seq<char>)
    ensures
        leading_white(s) <= s.len(),
        forall|j: int| 0 <= j < leading_white(s) ==> white_space(#[trigger] s[j]),
        leading_white(s) < s.len() ==> !white_space(s[leading_white(s) as int]),
    decreases s.len(),
{
    if s.len() > 0 && white_space(s[0]) {
        let t = s.drop_first();
        lemma_leading_white_props(t);
        assert forall|j: int| 0 <= j < leading_white(s) implies white_space(#[trigger] s[j]) by {
            if j > 0 {
                assert(s[j] == t[j - 1]);
            }
        }
        if leading_white(s) < s.len() {
            assert(s[leading_white(s) as int] == t[leading_white(t) as int]);
        }
    }
}

pub proof fn lemma_trailing_white_props(s: Seq<char>)
    ensures
        trailing_white(s) <= s.len(),
        forall|j: int| s.len() - trailing_white(s) <= j < s.len() ==> white_space(#[trigger] s[j]),
        trailing_white(s) < s.len() ==> !white_space(s[s.len() - 1 - trailing_white(s)]),
    decreases s.len(),
{
    if s.len() > 0 && white_space(s.last()) {
        let t = s.drop_last();
        lemma_trailing_white_props(t);
        assert forall|j: int| s.len() - trailing_white(s) <= j < s.len() implies white_space(#[trigger] s[j]) by {
            if j < s.len() - 1 {
                assert(s[j] == t[j]);
            }
        }
        if trailing_white(s) < s.len() {
            assert(s[s.len() - 1 - trailing_white(s)] == t[t.len() - 1 - trailing_white(t)]);
        }
    }
}

/// Text that is not all white space keeps, once trimmed, what lies between its leading and
/// trailing white space, and that is not empty.
pub proof fn lemma_trim_bounds(s: Seq<char>)
    requires
        !all_white(s),
    ensures
        leading_white(s) + trailing_white(s) < s.len(),
        trim(s) == s.subrange(leading_white(s) as int, s.len() - trailing_white(s)),
{
    lemma_leading_white_props(s);
    lemma_trailing_white_props(s);
    let k = choose|i: int| 0 <= i < s.len() && !white_space(#[trigger] s[i]);
    assert(leading_white(s) <= k);
    assert(k < s.len() - trailing_white(s));
}

/// The index of the first `c` in `v[from..to]`, counted from `from`.
pub fn find_char(v: &[char], c: char, from: usize, to: usize) -> (r: Option<usize>)
    requires
        from <= to <= v@.len(),
    ensures
        r matches Some(k) ==> from <= k < to && v@[k as int] == c,
        first_index(v@.subrange(from as int, to as int), c) == (match r {
            Some(k) => Some(k - from),
            None => None::<int>,
        }),
{
    let ghost s = v@.subrange(from as int, to as int);
    let mut i = from;
    while i < to
        invariant
            from <= i <= to <= v@.len(),
            s == v@.subrange(from as int, to as int),
            forall|j: int| from <= j < i ==> #[trigger] v@[j] != c,
        decreases to - i,
    {
        if v[i] == c {
            proof {
                assert forall|j: int| 0 <= j < i - from implies #[trigger] s[j] != c by {
                    assert(s[j] == v@[from + j]);
                }
                lemma_first_index(s, c, i - from);
            }
            return Some(i);
        }
        i = i + 1;
    }
    proof {
        assert forall|j: int| 0 <= j < to - from implies #[trigger] s[j] != c by {
            assert(s[j] == v@[from + j]);
        }
        lemma_first_index(s, c, to - from);
    }
    None
}

/// `s` without its surrounding white space.
pub fn trim_str(s: &str) -> (r: &str)
    ensures
        r@ == trim(s@),
{
    let v = chars_of(s);
    let (a, b) = trim_bounds(v.as_slice());
    s.substring_char(a, b)
}

/// The pieces of `s` between occurrences of `c`, in order.
pub open spec fn split_on(s: Seq<char>, c: char) -> Seq<Seq<char>>
    decreases s.len(),
{
    match first_index(s, c) {
        None => seq![s],
        Some(i) => {
            proof {
                lemma_first_index_props(s, c);
            }
            seq![s.subrange(0, i)] + split_on(s.subrange(i + 1, s.len() as int), c)
        },
    }
}

pub open spec fn str_views<'a>(v: Seq<&'a str>) -> Seq<Seq<char>> {
    Seq::new(v.len(), |i: int| v[i]@)
}

/// The pieces of `text` between occurrences of `c`, as `str::split` gives them.
pub fn split_str<'a>(text: &'a str, c: char) -> (r: Vec<&'a str>)
    ensures
        str_views(r@) == split_on(text@, c),
{
    let v = chars_of(text);
    let n = v.len();
    let mut r: Vec<&'a str> = Vec::new();
    let mut from: usize = 0;
    let mut done = false;
    assert(text@.subrange(0, n as int) =~= text@);
    assert(str_views(r@) + split_on(text@, c) =~= split_on(text@, c));
    while !done
        invariant
            n == text@.len(),
            v@ == text@,
            from <= n,
            done ==> str_views(r@) == split_on(text@, c),
            !done ==> split_on(text@, c) == str_views(r@) + split_on(text@.subrange(from as int, n as int), c),
        decreases n - from + (if done { 0int } else { 1int }),
    {
        let ghost rest = text@.subrange(from as int, n as int);
        proof {
            assert(v@.subrange(from as int, n as int) =~= rest);
            lemma_first_index_props(rest, c);
        }
        let ghost before = str_views(r@);
        match find_char(v.as_slice(), c, from, n) {
            None => {
                let sec = text.substring_char(from, n);
                r.push(sec);
                proof {
                    assert(split_on(rest, c) == seq![rest]);
                    assert(str_views(r@) =~= before + seq![rest]);
                }
                done = true;
            },
            Some(j) => {
                let sec = text.substring_char(from, j);
                r.push(sec);
                proof {
                    assert(sec@ =~= rest.subrange(0, j - from));
                    assert(rest.subrange(j - from + 1, rest.len() as int) =~= text@.subrange(j + 1, n as int));
                    assert(split_on(rest, c) == seq![sec@] + split_on(text@.subrange(j + 1, n as int), c));
                    assert(str_views(r@) =~= before.push(sec@));
                    assert(before + (seq![sec@] + split_on(text@.subrange(j + 1, n as int), c))
                        =~= str_views(r@) + split_on(text@.subrange(j + 1, n as int), c));
                }
                from = j + 1;
            },
        }
    }
    r
}

} // verus!
