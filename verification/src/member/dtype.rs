//! The data types of the standard and their names.
use vstd::prelude::*;
use vstd::string::*;
use crate::text::push_str;
use crate::error::{ElucidatorError, ElucidatorErrorV, ParsingFailure, ParsingFailureV};
use crate::helper::{ascii_trimmed_or_err, spec_ascii_trimmed};

verus! {

/// Possible Data Types allowed in The Elucidation Metadata Standard, most composable as arrays.
#[derive(Debug, Clone, Copy, PartialEq, Eq, Structural)]
#[non_exhaustive]
pub enum Dtype {
    Byte,
    UnsignedInteger16,
    UnsignedInteger32,
    UnsignedInteger64,
    SignedInteger8,
    SignedInteger16,
    SignedInteger32,
    SignedInteger64,
    Float32,
    Float64,
    Str,
}

/// The name under which the standard writes a data type.
pub open spec fn dtype_name(d: Dtype) -> Seq<char> {
    match d {
        Dtype::Byte => seq!['u', '8'],
        Dtype::UnsignedInteger16 => seq!['u', '1', '6'],
        Dtype::UnsignedInteger32 => seq!['u', '3', '2'],
        Dtype::UnsignedInteger64 => seq!['u', '6', '4'],
        Dtype::SignedInteger8 => seq!['i', '8'],
        Dtype::SignedInteger16 => seq!['i', '1', '6'],
        Dtype::SignedInteger32 => seq!['i', '3', '2'],
        Dtype::SignedInteger64 => seq!['i', '6', '4'],
        Dtype::Float32 => seq!['f', '3', '2'],
        Dtype::Float64 => seq!['f', '6', '4'],
        Dtype::Str => seq!['s', 't', 'r', 'i', 'n', 'g'],
    }
}

/// The data type named `t`, if any.
pub open spec fn dtype_of_name(t: Seq<char>) -> Option<Dtype> {
    if t == dtype_name(Dtype::Byte) {
        Some(Dtype::Byte)
    } else if t == dtype_name(Dtype::UnsignedInteger16) {
        Some(Dtype::UnsignedInteger16)
    } else if t == dtype_name(Dtype::UnsignedInteger32) {
        Some(Dtype::UnsignedInteger32)
    } else if t == dtype_name(Dtype::UnsignedInteger64) {
        Some(Dtype::UnsignedInteger64)
    } else if t == dtype_name(Dtype::SignedInteger8) {
        Some(Dtype::SignedInteger8)
    } else if t == dtype_name(Dtype::SignedInteger16) {
        Some(Dtype::SignedInteger16)
    } else if t == dtype_name(Dtype::SignedInteger32) {
        Some(Dtype::SignedInteger32)
    } else if t == dtype_name(Dtype::SignedInteger64) {
        Some(Dtype::SignedInteger64)
    } else if t == dtype_name(Dtype::Float32) {
        Some(Dtype::Float32)
    } else if t == dtype_name(Dtype::Float64) {
        Some(Dtype::Float64)
    } else if t == dtype_name(Dtype::Str) {
        Some(Dtype::Str)
    } else {
        None
    }
}

/// Every data type is found again by its name.
pub proof fn lemma_dtype_name_round_trip(d: Dtype)
    ensures
        dtype_of_name(dtype_name(d)) == Some(d),
{
    assert(dtype_name(Dtype::Byte) != dtype_name(Dtype::UnsignedInteger16));
    assert(seq!['u', '8'] != seq!['u', '1', '6']);
    match d {
        Dtype::Byte => {},
        Dtype::UnsignedInteger16 => {
            assert(dtype_name(d)[1] != dtype_name(Dtype::Byte)[1] || dtype_name(d).len() != 2);
        },
        Dtype::UnsignedInteger32 => {
            assert(dtype_name(d)[1] != dtype_name(Dtype::UnsignedInteger16)[1]);
        },
        Dtype::UnsignedInteger64 => {
            assert(dtype_name(d)[1] != dtype_name(Dtype::UnsignedInteger16)[1]);
            assert(dtype_name(d)[1] != dtype_name(Dtype::UnsignedInteger32)[1]);
        },
        Dtype::SignedInteger8 => {
            assert(dtype_name(d)[0] != dtype_name(Dtype::Byte)[0]);
        },
        Dtype::SignedInteger16 => {
            assert(dtype_name(d)[0] != dtype_name(Dtype::UnsignedInteger16)[0]);
        },
        Dtype::SignedInteger32 => {
            assert(dtype_name(d)[0] != dtype_name(Dtype::UnsignedInteger32)[0]);
            assert(dtype_name(d)[1] != dtype_name(Dtype::SignedInteger16)[1]);
        },
        Dtype::SignedInteger64 => {
            assert(dtype_name(d)[0] != dtype_name(Dtype::UnsignedInteger64)[0]);
            assert(dtype_name(d)[1] != dtype_name(Dtype::SignedInteger16)[1]);
            assert(dtype_name(d)[1] != dtype_name(Dtype::SignedInteger32)[1]);
        },
        Dtype::Float32 => {
            assert(dtype_name(d)[0] != dtype_name(Dtype::UnsignedInteger32)[0]);
            assert(dtype_name(d)[0] != dtype_name(Dtype::SignedInteger32)[0]);
            assert(dtype_name(d)[1] != dtype_name(Dtype::UnsignedInteger16)[1]);
            assert(dtype_name(d)[1] != dtype_name(Dtype::UnsignedInteger64)[1]);
        },
        Dtype::Float64 => {
            assert(dtype_name(d)[0] != dtype_name(Dtype::UnsignedInteger64)[0]);
            assert(dtype_name(d)[0] != dtype_name(Dtype::SignedInteger64)[0]);
            assert(dtype_name(d)[1] != dtype_name(Dtype::UnsignedInteger16)[1]);
            assert(dtype_name(d)[1] != dtype_name(Dtype::UnsignedInteger32)[1]);
            assert(dtype_name(d)[1] != dtype_name(Dtype::Float32)[1]);
        },
        Dtype::Str => {},
    }
}

/// Appends the name of a data type to `s`.
pub fn push_dtype_name(s: &mut String, d: Dtype)
    ensures
        final(s)@ == old(s)@ + dtype_name(d),
{
    let name: &str = match d {
        Dtype::Byte => "u8",
        Dtype::UnsignedInteger16 => "u16",
        Dtype::UnsignedInteger32 => "u32",
        Dtype::UnsignedInteger64 => "u64",
        Dtype::SignedInteger8 => "i8",
        Dtype::SignedInteger16 => "i16",
        Dtype::SignedInteger32 => "i32",
        Dtype::SignedInteger64 => "i64",
        Dtype::Float32 => "f32",
        Dtype::Float64 => "f64",
        Dtype::Str => "string",
    };
    proof {
        reveal_strlit("u8");
        reveal_strlit("u16");
        reveal_strlit("u32");
        reveal_strlit("u64");
        reveal_strlit("i8");
        reveal_strlit("i16");
        reveal_strlit("i32");
        reveal_strlit("i64");
        reveal_strlit("f32");
        reveal_strlit("f64");
        reveal_strlit("string");
        assert(name@ =~= dtype_name(d));
    }
    push_str(s, name);
}

fn chars_are(t: &[char], name: &[char]) -> (b: bool)
    ensures
        b == (t@ == name@),
{
    if t.len() != name.len() {
        return false;
    }
    let mut i: usize = 0;
    while i < t.len()
        invariant
            i <= t@.len(),
            t@.len() == name@.len(),
            forall|j: int| 0 <= j < i ==> t@[j] == name@[j],
        decreases t.len() - i,
    {
        if t[i] != name[i] {
            return false;
        }
        i = i + 1;
    }
    assert(t@ =~= name@);
    true
}

/// The data type named by `t`, if any.
pub fn dtype_from_name(t: &[char]) -> (r: Option<Dtype>)
    ensures
        r == dtype_of_name(t@),
{
    if chars_are(t, &['u', '8']) {
        Some(Dtype::Byte)
    } else if chars_are(t, &['u', '1', '6']) {
        Some(Dtype::UnsignedInteger16)
    } else if chars_are(t, &['u', '3', '2']) {
        Some(Dtype::UnsignedInteger32)
    } else if chars_are(t, &['u', '6', '4']) {
        Some(Dtype::UnsignedInteger64)
    } else if chars_are(t, &['i', '8']) {
        Some(Dtype::SignedInteger8)
    } else if chars_are(t, &['i', '1', '6']) {
        Some(Dtype::SignedInteger16)
    } else if chars_are(t, &['i', '3', '2']) {
        Some(Dtype::SignedInteger32)
    } else if chars_are(t, &['i', '6', '4']) {
        Some(Dtype::SignedInteger64)
    } else if chars_are(t, &['f', '3', '2']) {
        Some(Dtype::Float32)
    } else if chars_are(t, &['f', '6', '4']) {
        Some(Dtype::Float64)
    } else if chars_are(t, &['s', 't', 'r', 'i', 'n', 'g']) {
        Some(Dtype::Str)
    } else {
        None
    }
}

impl Dtype {
    /// The data type that the text names, ignoring surrounding white space; the text must be
    /// ASCII.
    pub fn from(s: &str) -> (r: Result<Dtype, ElucidatorError>)
        ensures
            r matches Ok(d) ==> spec_dtype_from(s@) == Ok::<Dtype, ElucidatorErrorV>(d),
            r matches Err(e) ==> spec_dtype_from(s@) == Err::<Dtype, ElucidatorErrorV>(e@),
    {
        let ss = ascii_trimmed_or_err(s)?;
        let v = crate::text::chars_of(ss);
        match dtype_from_name(v.as_slice()) {
            Some(d) => Ok(d),
            None => Err(ElucidatorError::Parsing {
                offender: ss.to_owned(),
                reason: ParsingFailure::IllegalDataType,
            }),
        }
    }
}

/// What `Dtype::from` gives.
pub open spec fn spec_dtype_from(s: Seq<char>) -> Result<Dtype, ElucidatorErrorV> {
    match spec_ascii_trimmed(s) {
        Err(e) => Err(e),
        Ok(t) => match dtype_of_name(t) {
            Some(d) => Ok(d),
            None => Err(ElucidatorErrorV::Parsing { offender: t, reason: ParsingFailureV::IllegalDataType }),
        },
    }
}

/// Law: the data types are written as The Standard names them.
pub proof fn lemma_dtype_names()
    ensures
        dtype_name(Dtype::Byte) == "u8"@,
        dtype_name(Dtype::UnsignedInteger16) == "u16"@,
        dtype_name(Dtype::UnsignedInteger32) == "u32"@,
        dtype_name(Dtype::UnsignedInteger64) == "u64"@,
        dtype_name(Dtype::SignedInteger8) == "i8"@,
        dtype_name(Dtype::SignedInteger16) == "i16"@,
        dtype_name(Dtype::SignedInteger32) == "i32"@,
        dtype_name(Dtype::SignedInteger64) == "i64"@,
        dtype_name(Dtype::Float32) == "f32"@,
        dtype_name(Dtype::Float64) == "f64"@,
        dtype_name(Dtype::Str) == "string"@,
{
    reveal_strlit("u8");
    reveal_strlit("u16");
    reveal_strlit("u32");
    reveal_strlit("u64");
    reveal_strlit("i8");
    reveal_strlit("i16");
    reveal_strlit("i32");
    reveal_strlit("i64");
    reveal_strlit("f32");
    reveal_strlit("f64");
    reveal_strlit("string");
    assert(dtype_name(Dtype::Byte) =~= "u8"@);
    assert(dtype_name(Dtype::UnsignedInteger16) =~= "u16"@);
    assert(dtype_name(Dtype::UnsignedInteger32) =~= "u32"@);
    assert(dtype_name(Dtype::UnsignedInteger64) =~= "u64"@);
    assert(dtype_name(Dtype::SignedInteger8) =~= "i8"@);
    assert(dtype_name(Dtype::SignedInteger16) =~= "i16"@);
    assert(dtype_name(Dtype::SignedInteger32) =~= "i32"@);
    assert(dtype_name(Dtype::SignedInteger64) =~= "i64"@);
    assert(dtype_name(Dtype::Float32) =~= "f32"@);
    assert(dtype_name(Dtype::Float64) =~= "f64"@);
    assert(dtype_name(Dtype::Str) =~= "string"@);
}

} // verus!
