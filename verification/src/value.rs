//! Interpreted data values and their byte representation.
use vstd::prelude::*;
use vstd::string::*;
use vstd::utf8::encode_utf8;
use crate::bytes::{le_bytes, le_value, lemma_pow256_values, pow256, push_le};
use crate::member::dtype::Dtype;

verus! {

/// Store data values that have been interpreted. The floating-point variants hold the IEEE 754
/// bit patterns of their values (`f32::to_bits`, `f64::to_bits`).
#[derive(Debug, PartialEq, Clone)]
pub enum DataValue {
    Byte(u8),
    UnsignedInteger16(u16),
    UnsignedInteger32(u32),
    UnsignedInteger64(u64),
    SignedInteger8(i8),
    SignedInteger16(i16),
    SignedInteger32(i32),
    SignedInteger64(i64),
    Float32(u32),
    Float64(u64),
    Str(String),
    ByteArray(Vec<u8>),
    UnsignedInteger16Array(Vec<u16>),
    UnsignedInteger32Array(Vec<u32>),
    UnsignedInteger64Array(Vec<u64>),
    SignedInteger8Array(Vec<i8>),
    SignedInteger16Array(Vec<i16>),
    SignedInteger32Array(Vec<i32>),
    SignedInteger64Array(Vec<i64>),
    Float32Array(Vec<u32>),
    Float64Array(Vec<u64>),
}

/// What a data value stands for: one number of a data type (a float by its bits), a text, or
/// an array of numbers of a data type.
pub enum DataValueV {
    Scalar(Dtype, int),
    Text(Seq<char>),
    Array(Dtype, Seq<int>),
}

impl View for DataValue {
    type V = DataValueV;

    open spec fn view(&self) -> DataValueV {
        match self {
            DataValue::Byte(v) => DataValueV::Scalar(Dtype::Byte, *v as int),
            DataValue::UnsignedInteger16(v) => DataValueV::Scalar(Dtype::UnsignedInteger16, *v as int),
            DataValue::UnsignedInteger32(v) => DataValueV::Scalar(Dtype::UnsignedInteger32, *v as int),
            DataValue::UnsignedInteger64(v) => DataValueV::Scalar(Dtype::UnsignedInteger64, *v as int),
            DataValue::SignedInteger8(v) => DataValueV::Scalar(Dtype::SignedInteger8, *v as int),
            DataValue::SignedInteger16(v) => DataValueV::Scalar(Dtype::SignedInteger16, *v as int),
            DataValue::SignedInteger32(v) => DataValueV::Scalar(Dtype::SignedInteger32, *v as int),
            DataValue::SignedInteger64(v) => DataValueV::Scalar(Dtype::SignedInteger64, *v as int),
            DataValue::Float32(v) => DataValueV::Scalar(Dtype::Float32, *v as int),
            DataValue::Float64(v) => DataValueV::Scalar(Dtype::Float64, *v as int),
            DataValue::Str(s) => DataValueV::Text(s@),
            DataValue::ByteArray(v) => DataValueV::Array(Dtype::Byte, v@.map_values(|x: u8| x as int)),
            DataValue::UnsignedInteger16Array(v) => DataValueV::Array(
                Dtype::UnsignedInteger16,
                v@.map_values(|x: u16| x as int),
            ),
            DataValue::UnsignedInteger32Array(v) => DataValueV::Array(
                Dtype::UnsignedInteger32,
                v@.map_values(|x: u32| x as int),
            ),
            DataValue::UnsignedInteger64Array(v) => DataValueV::Array(
                Dtype::UnsignedInteger64,
                v@.map_values(|x: u64| x as int),
            ),
            DataValue::SignedInteger8Array(v) => DataValueV::Array(
                Dtype::SignedInteger8,
                v@.map_values(|x: i8| x as int),
            ),
            DataValue::SignedInteger16Array(v) => DataValueV::Array(
                Dtype::SignedInteger16,
                v@.map_values(|x: i16| x as int),
            ),
            DataValue::SignedInteger32Array(v) => DataValueV::Array(
                Dtype::SignedInteger32,
                v@.map_values(|x: i32| x as int),
            ),
            DataValue::SignedInteger64Array(v) => DataValueV::Array(
                Dtype::SignedInteger64,
                v@.map_values(|x: i64| x as int),
            ),
            DataValue::Float32Array(v) => DataValueV::Array(Dtype::Float32, v@.map_values(|x: u32| x as int)),
            DataValue::Float64Array(v) => DataValueV::Array(Dtype::Float64, v@.map_values(|x: u64| x as int)),
        }
    }
}

/// The number of bytes of one value of a data type (for a string, of its length).
pub open spec fn width(d: Dtype) -> nat {
    match d {
        Dtype::Byte | Dtype::SignedInteger8 => 1,
        Dtype::UnsignedInteger16 | Dtype::SignedInteger16 => 2,
        Dtype::UnsignedInteger32 | Dtype::SignedInteger32 | Dtype::Float32 => 4,
        _ => 8,
    }
}

pub open spec fn is_signed_int(d: Dtype) -> bool {
    d == Dtype::SignedInteger8 || d == Dtype::SignedInteger16 || d == Dtype::SignedInteger32 || d
        == Dtype::SignedInteger64
}

/// The values a data type holds (floats by their bits).
pub open spec fn in_range(d: Dtype, x: int) -> bool {
    if is_signed_int(d) {
        -(pow256(width(d)) / 2) <= x < pow256(width(d)) / 2
    } else {
        0 <= x < pow256(width(d))
    }
}

/// The two's-complement bits of a value.
pub open spec fn unsigned_repr(d: Dtype, x: int) -> nat {
    if is_signed_int(d) && x < 0 {
        (x + pow256(width(d))) as nat
    } else {
        x as nat
    }
}

/// The little-endian bytes of one value.
pub open spec fn value_bytes(d: Dtype, x: int) -> Seq<u8> {
    le_bytes(unsigned_repr(d, x), width(d))
}

/// The value that little-endian bytes give for a data type.
pub open spec fn decode_value(d: Dtype, b: Seq<u8>) -> int {
    let u = le_value(b);
    if is_signed_int(d) && u >= pow256(width(d)) / 2 {
        u - pow256(width(d))
    } else {
        u as int
    }
}

/// The bytes of the values, one after another, with no count.
pub open spec fn values_bytes(d: Dtype, xs: Seq<int>) -> Seq<u8>
    decreases xs.len(),
{
    if xs.len() == 0 {
        Seq::empty()
    } else {
        value_bytes(d, xs[0]) + values_bytes(d, xs.drop_first())
    }
}

/// A text: its UTF-8 byte count as a `u64`, then its UTF-8 bytes.
pub open spec fn text_bytes(s: Seq<char>) -> Seq<u8> {
    le_bytes(encode_utf8(s).len(), 8) + encode_utf8(s)
}

/// The byte representation of a value, as The Standard gives it.
pub open spec fn buffer_of(v: DataValueV) -> Seq<u8> {
    match v {
        DataValueV::Scalar(d, x) => value_bytes(d, x),
        DataValueV::Text(s) => text_bytes(s),
        DataValueV::Array(d, xs) => values_bytes(d, xs),
    }
}

/// The two's-complement bits of a signed value of `w` bytes.
pub fn signed_bits(x: i64, w: usize) -> (r: u64)
    requires
        w == 1 || w == 2 || w == 4 || w == 8,
        -(pow256(w as nat) / 2) <= x < pow256(w as nat) / 2,
    ensures
        r as int == (if x < 0 {
            x + pow256(w as nat)
        } else {
            x as int
        }),
{
    proof {
        lemma_pow256_values();
    }
    if x >= 0 {
        x as u64
    } else if w == 8 {
        ((x - i64::MIN) as u64) + 0x8000_0000_0000_0000
    } else if w == 4 {
        (x + 0x1_0000_0000) as u64
    } else if w == 2 {
        (x + 0x1_0000) as u64
    } else {
        (x + 0x100) as u64
    }
}

/// Appends the bytes of one value.
pub fn push_value(out: &mut Vec<u8>, d: Dtype, x: i128)
    requires
        d != Dtype::Str,
        in_range(d, x as int),
    ensures
        final(out)@ == old(out)@ + value_bytes(d, x as int),
{
    proof {
        lemma_pow256_values();
    }
    let w: usize = match d {
        Dtype::Byte | Dtype::SignedInteger8 => 1,
        Dtype::UnsignedInteger16 | Dtype::SignedInteger16 => 2,
        Dtype::UnsignedInteger32 | Dtype::SignedInteger32 | Dtype::Float32 => 4,
        _ => 8,
    };
    let signed = match d {
        Dtype::SignedInteger8 | Dtype::SignedInteger16 | Dtype::SignedInteger32 | Dtype::SignedInteger64 => true,
        _ => false,
    };
    let raw: u64 = if signed {
        signed_bits(x as i64, w)
    } else {
        x as u64
    };
    push_le(out, raw, w);
}

/// Appends all of `b`.
pub fn push_bytes(out: &mut Vec<u8>, b: &[u8])
    ensures
        final(out)@ == old(out)@ + b@,
{
    let ghost start = old(out)@;
    let mut i: usize = 0;
    while i < b.len()
        invariant
            i <= b@.len(),
            out@ == start + b@.subrange(0, i as int),
        decreases b.len() - i,
    {
        out.push(b[i]);
        i = i + 1;
        assert(out@ =~= start + b@.subrange(0, i as int));
    }
    assert(b@.subrange(0, b@.len() as int) =~= b@);
}

pub proof fn lemma_values_bytes_push(d: Dtype, xs: Seq<int>, x: int)
    ensures
        values_bytes(d, xs.push(x)) == values_bytes(d, xs) + value_bytes(d, x),
    decreases xs.len(),
{
    if xs.len() == 0 {
        assert(xs.push(x).drop_first() =~= Seq::<int>::empty());
        assert(values_bytes(d, xs.push(x).drop_first()) == Seq::<u8>::empty());
        assert(xs.push(x)[0] == x);
        assert(values_bytes(d, xs.push(x)) =~= value_bytes(d, x));
        assert(values_bytes(d, xs) == Seq::<u8>::empty());
    } else {
        assert(xs.push(x).drop_first() =~= xs.drop_first().push(x));
        lemma_values_bytes_push(d, xs.drop_first(), x);
        assert(values_bytes(d, xs.push(x)) =~= values_bytes(d, xs) + value_bytes(d, x));
    }
}

/// The bytes of an array of values: each value's bytes, one after another.
pub fn array_bytes(d: Dtype, xs: &Vec<i128>) -> (r: Vec<u8>)
    requires
        d != Dtype::Str,
        forall|i: int| 0 <= i < xs@.len() ==> in_range(d, #[trigger] xs@[i] as int),
    ensures
        r@ == values_bytes(d, xs@.map_values(|x: i128| x as int)),
{
    let mut out: Vec<u8> = Vec::new();
    let mut i: usize = 0;
    while i < xs.len()
        invariant
            i <= xs@.len(),
            d != Dtype::Str,
            forall|k: int| 0 <= k < xs@.len() ==> in_range(d, #[trigger] xs@[k] as int),
            out@ == values_bytes(d, xs@.subrange(0, i as int).map_values(|x: i128| x as int)),
        decreases xs.len() - i,
    {
        let ghost before = xs@.subrange(0, i as int).map_values(|x: i128| x as int);
        push_value(&mut out, d, xs[i]);
        proof {
            lemma_values_bytes_push(d, before, xs@[i as int] as int);
            assert(xs@.subrange(0, i + 1).map_values(|x: i128| x as int) =~= before.push(xs@[i as int] as int));
        }
        i = i + 1;
    }
    assert(xs@.subrange(0, xs@.len() as int) =~= xs@);
    out
}

/// The values of `v`, widened.
pub fn widen_u8(v: &Vec<u8>) -> (r: Vec<i128>)
    ensures
        r@.map_values(|x: i128| x as int) == v@.map_values(|x: u8| x as int),
        r@.len() == v@.len(),
        forall|k: int| 0 <= k < v@.len() ==> #[trigger] r@[k] as int == v@[k] as int,
{
    let mut r: Vec<i128> = Vec::new();
    let mut i: usize = 0;
    while i < v.len()
        invariant
            i <= v@.len(),
            r@.len() == i,
            forall|k: int| 0 <= k < i ==> #[trigger] r@[k] as int == v@[k] as int,
        decreases v.len() - i,
    {
        r.push(v[i] as i128);
        i = i + 1;
    }
    assert(r@.map_values(|x: i128| x as int) =~= v@.map_values(|x: u8| x as int));
    r
}

/// The values of `v`, widened.
pub fn widen_u16(v: &Vec<u16>) -> (r: Vec<i128>)
    ensures
        r@.map_values(|x: i128| x as int) == v@.map_values(|x: u16| x as int),
        r@.len() == v@.len(),
        forall|k: int| 0 <= k < v@.len() ==> #[trigger] r@[k] as int == v@[k] as int,
{
    let mut r: Vec<i128> = Vec::new();
    let mut i: usize = 0;
    while i < v.len()
        invariant
            i <= v@.len(),
            r@.len() == i,
            forall|k: int| 0 <= k < i ==> #[trigger] r@[k] as int == v@[k] as int,
        decreases v.len() - i,
    {
        r.push(v[i] as i128);
        i = i + 1;
    }
    assert(r@.map_values(|x: i128| x as int) =~= v@.map_values(|x: u16| x as int));
    r
}

/// The values of `v`, widened.
pub fn widen_u32(v: &Vec<u32>) -> (r: Vec<i128>)
    ensures
        r@.map_values(|x: i128| x as int) == v@.map_values(|x: u32| x as int),
        r@.len() == v@.len(),
        forall|k: int| 0 <= k < v@.len() ==> #[trigger] r@[k] as int == v@[k] as int,
{
    let mut r: Vec<i128> = Vec::new();
    let mut i: usize = 0;
    while i < v.len()
        invariant
            i <= v@.len(),
            r@.len() == i,
            forall|k: int| 0 <= k < i ==> #[trigger] r@[k] as int == v@[k] as int,
        decreases v.len() - i,
    {
        r.push(v[i] as i128);
        i = i + 1;
    }
    assert(r@.map_values(|x: i128| x as int) =~= v@.map_values(|x: u32| x as int));
    r
}

/// The values of `v`, widened.
pub fn widen_u64(v: &Vec<u64>) -> (r: Vec<i128>)
    ensures
        r@.map_values(|x: i128| x as int) == v@.map_values(|x: u64| x as int),
        r@.len() == v@.len(),
        forall|k: int| 0 <= k < v@.len() ==> #[trigger] r@[k] as int == v@[k] as int,
{
    let mut r: Vec<i128> = Vec::new();
    let mut i: usize = 0;
    while i < v.len()
        invariant
            i <= v@.len(),
            r@.len() == i,
            forall|k: int| 0 <= k < i ==> #[trigger] r@[k] as int == v@[k] as int,
        decreases v.len() - i,
    {
        r.push(v[i] as i128);
        i = i + 1;
    }
    assert(r@.map_values(|x: i128| x as int) =~= v@.map_values(|x: u64| x as int));
    r
}

/// The values of `v`, widened.
pub fn widen_i8(v: &Vec<i8>) -> (r: Vec<i128>)
    ensures
        r@.map_values(|x: i128| x as int) == v@.map_values(|x: i8| x as int),
        r@.len() == v@.len(),
        forall|k: int| 0 <= k < v@.len() ==> #[trigger] r@[k] as int == v@[k] as int,
{
    let mut r: Vec<i128> = Vec::new();
    let mut i: usize = 0;
    while i < v.len()
        invariant
            i <= v@.len(),
            r@.len() == i,
            forall|k: int| 0 <= k < i ==> #[trigger] r@[k] as int == v@[k] as int,
        decreases v.len() - i,
    {
        r.push(v[i] as i128);
        i = i + 1;
    }
    assert(r@.map_values(|x: i128| x as int) =~= v@.map_values(|x: i8| x as int));
    r
}

/// The values of `v`, widened.
pub fn widen_i16(v: &Vec<i16>) -> (r: Vec<i128>)
    ensures
        r@.map_values(|x: i128| x as int) == v@.map_values(|x: i16| x as int),
        r@.len() == v@.len(),
        forall|k: int| 0 <= k < v@.len() ==> #[trigger] r@[k] as int == v@[k] as int,
{
    let mut r: Vec<i128> = Vec::new();
    let mut i: usize = 0;
    while i < v.len()
        invariant
            i <= v@.len(),
            r@.len() == i,
            forall|k: int| 0 <= k < i ==> #[trigger] r@[k] as int == v@[k] as int,
        decreases v.len() - i,
    {
        r.push(v[i] as i128);
        i = i + 1;
    }
    assert(r@.map_values(|x: i128| x as int) =~= v@.map_values(|x: i16| x as int));
    r
}

/// The values of `v`, widened.
pub fn widen_i32(v: &Vec<i32>) -> (r: Vec<i128>)
    ensures
        r@.map_values(|x: i128| x as int) == v@.map_values(|x: i32| x as int),
        r@.len() == v@.len(),
        forall|k: int| 0 <= k < v@.len() ==> #[trigger] r@[k] as int == v@[k] as int,
{
    let mut r: Vec<i128> = Vec::new();
    let mut i: usize = 0;
    while i < v.len()
        invariant
            i <= v@.len(),
            r@.len() == i,
            forall|k: int| 0 <= k < i ==> #[trigger] r@[k] as int == v@[k] as int,
        decreases v.len() - i,
    {
        r.push(v[i] as i128);
        i = i + 1;
    }
    assert(r@.map_values(|x: i128| x as int) =~= v@.map_values(|x: i32| x as int));
    r
}

/// The values of `v`, widened.
pub fn widen_i64(v: &Vec<i64>) -> (r: Vec<i128>)
    ensures
        r@.map_values(|x: i128| x as int) == v@.map_values(|x: i64| x as int),
        r@.len() == v@.len(),
        forall|k: int| 0 <= k < v@.len() ==> #[trigger] r@[k] as int == v@[k] as int,
{
    let mut r: Vec<i128> = Vec::new();
    let mut i: usize = 0;
    while i < v.len()
        invariant
            i <= v@.len(),
            r@.len() == i,
            forall|k: int| 0 <= k < i ==> #[trigger] r@[k] as int == v@[k] as int,
        decreases v.len() - i,
    {
        r.push(v[i] as i128);
        i = i + 1;
    }
    assert(r@.map_values(|x: i128| x as int) =~= v@.map_values(|x: i64| x as int));
    r
}

/// The bytes of a text: its UTF-8 byte count as a `u64`, then its UTF-8 bytes.
pub fn text_buffer(s: &str) -> (r: Vec<u8>)
    ensures
        r@ == text_bytes(s@),
{
    let bytes = s.as_bytes();
    let mut out: Vec<u8> = Vec::new();
    push_le(&mut out, bytes.len() as u64, 8);
    push_bytes(&mut out, bytes);
    out
}

impl DataValue {
    /// The byte representation of this value.
    pub fn as_buffer(&self) -> (r: Vec<u8>)
        ensures
            r@ == buffer_of(self@),
    {
        let mut out: Vec<u8> = Vec::new();
        proof {
            lemma_pow256_values();
        }
        match self {
            DataValue::Byte(x) => {
                push_value(&mut out, Dtype::Byte, *x as i128);
            },
            DataValue::UnsignedInteger16(x) => {
                push_value(&mut out, Dtype::UnsignedInteger16, *x as i128);
            },
            DataValue::UnsignedInteger32(x) => {
                push_value(&mut out, Dtype::UnsignedInteger32, *x as i128);
            },
            DataValue::UnsignedInteger64(x) => {
                push_value(&mut out, Dtype::UnsignedInteger64, *x as i128);
            },
            DataValue::SignedInteger8(x) => {
                push_value(&mut out, Dtype::SignedInteger8, *x as i128);
            },
            DataValue::SignedInteger16(x) => {
                push_value(&mut out, Dtype::SignedInteger16, *x as i128);
            },
            DataValue::SignedInteger32(x) => {
                push_value(&mut out, Dtype::SignedInteger32, *x as i128);
            },
            DataValue::SignedInteger64(x) => {
                push_value(&mut out, Dtype::SignedInteger64, *x as i128);
            },
            DataValue::Float32(x) => {
                push_value(&mut out, Dtype::Float32, *x as i128);
            },
            DataValue::Float64(x) => {
                push_value(&mut out, Dtype::Float64, *x as i128);
            },
            DataValue::ByteArray(xs) => {
                let w = widen_u8(xs);
                proof {
                    lemma_pow256_values();
                    assert forall|i: int| 0 <= i < w@.len() implies in_range(Dtype::Byte, #[trigger] w@[i] as int) by {
                        assert(w@[i] as int == xs@[i] as int);
                    }
                }
                out = array_bytes(Dtype::Byte, &w);
            },
            DataValue::UnsignedInteger16Array(xs) => {
                let w = widen_u16(xs);
                proof {
                    lemma_pow256_values();
                    assert forall|i: int| 0 <= i < w@.len() implies in_range(Dtype::UnsignedInteger16, #[trigger] w@[i] as int) by {
                        assert(w@[i] as int == xs@[i] as int);
                    }
                }
                out = array_bytes(Dtype::UnsignedInteger16, &w);
            },
            DataValue::UnsignedInteger32Array(xs) => {
                let w = widen_u32(xs);
                proof {
                    lemma_pow256_values();
                    assert forall|i: int| 0 <= i < w@.len() implies in_range(Dtype::UnsignedInteger32, #[trigger] w@[i] as int) by {
                        assert(w@[i] as int == xs@[i] as int);
                    }
                }
                out = array_bytes(Dtype::UnsignedInteger32, &w);
            },
            DataValue::UnsignedInteger64Array(xs) => {
                let w = widen_u64(xs);
                proof {
                    lemma_pow256_values();
                    assert forall|i: int| 0 <= i < w@.len() implies in_range(Dtype::UnsignedInteger64, #[trigger] w@[i] as int) by {
                        assert(w@[i] as int == xs@[i] as int);
                    }
                }
                out = array_bytes(Dtype::UnsignedInteger64, &w);
            },
            DataValue::SignedInteger8Array(xs) => {
                let w = widen_i8(xs);
                proof {
                    lemma_pow256_values();
                    assert forall|i: int| 0 <= i < w@.len() implies in_range(Dtype::SignedInteger8, #[trigger] w@[i] as int) by {
                        assert(w@[i] as int == xs@[i] as int);
                    }
                }
                out = array_bytes(Dtype::SignedInteger8, &w);
            },
            DataValue::SignedInteger16Array(xs) => {
                let w = widen_i16(xs);
                proof {
                    lemma_pow256_values();
                    assert forall|i: int| 0 <= i < w@.len() implies in_range(Dtype::SignedInteger16, #[trigger] w@[i] as int) by {
                        assert(w@[i] as int == xs@[i] as int);
                    }
                }
                out = array_bytes(Dtype::SignedInteger16, &w);
            },
            DataValue::SignedInteger32Array(xs) => {
                let w = widen_i32(xs);
                proof {
                    lemma_pow256_values();
                    assert forall|i: int| 0 <= i < w@.len() implies in_range(Dtype::SignedInteger32, #[trigger] w@[i] as int) by {
                        assert(w@[i] as int == xs@[i] as int);
                    }
                }
                out = array_bytes(Dtype::SignedInteger32, &w);
            },
            DataValue::SignedInteger64Array(xs) => {
                let w = widen_i64(xs);
                proof {
                    lemma_pow256_values();
                    assert forall|i: int| 0 <= i < w@.len() implies in_range(Dtype::SignedInteger64, #[trigger] w@[i] as int) by {
                        assert(w@[i] as int == xs@[i] as int);
                    }
                }
                out = array_bytes(Dtype::SignedInteger64, &w);
            },
            DataValue::Float32Array(xs) => {
                let w = widen_u32(xs);
                proof {
                    lemma_pow256_values();
                    assert forall|i: int| 0 <= i < w@.len() implies in_range(Dtype::Float32, #[trigger] w@[i] as int) by {
                        assert(w@[i] as int == xs@[i] as int);
                    }
                }
                out = array_bytes(Dtype::Float32, &w);
            },
            DataValue::Float64Array(xs) => {
                let w = widen_u64(xs);
                proof {
                    lemma_pow256_values();
                    assert forall|i: int| 0 <= i < w@.len() implies in_range(Dtype::Float64, #[trigger] w@[i] as int) by {
                        assert(w@[i] as int == xs@[i] as int);
                    }
                }
                out = array_bytes(Dtype::Float64, &w);
            },
            DataValue::Str(s) => {
                out = text_buffer(s.as_str());
            },
        }
        out
    }
}

/// The values of `xs`, each of which fits the narrower type.
pub fn narrow_u8(xs: &Vec<i128>) -> (r: Vec<u8>)
    requires
        forall|k: int| 0 <= k < xs@.len() ==> 0 <= #[trigger] xs@[k] < 0x100,
    ensures
        r@.map_values(|x: u8| x as int) == xs@.map_values(|x: i128| x as int),
{
    let mut r: Vec<u8> = Vec::new();
    let mut i: usize = 0;
    while i < xs.len()
        invariant
            i <= xs@.len(),
            r@.len() == i,
            forall|k: int| 0 <= k < xs@.len() ==> 0 <= #[trigger] xs@[k] < 0x100,
            forall|k: int| 0 <= k < i ==> #[trigger] r@[k] as int == xs@[k] as int,
        decreases xs.len() - i,
    {
        r.push(xs[i] as u8);
        i = i + 1;
    }
    assert(r@.map_values(|x: u8| x as int) =~= xs@.map_values(|x: i128| x as int));
    r
}

/// The values of `xs`, each of which fits the narrower type.
pub fn narrow_u16(xs: &Vec<i128>) -> (r: Vec<u16>)
    requires
        forall|k: int| 0 <= k < xs@.len() ==> 0 <= #[trigger] xs@[k] < 0x1_0000,
    ensures
        r@.map_values(|x: u16| x as int) == xs@.map_values(|x: i128| x as int),
{
    let mut r: Vec<u16> = Vec::new();
    let mut i: usize = 0;
    while i < xs.len()
        invariant
            i <= xs@.len(),
            r@.len() == i,
            forall|k: int| 0 <= k < xs@.len() ==> 0 <= #[trigger] xs@[k] < 0x1_0000,
            forall|k: int| 0 <= k < i ==> #[trigger] r@[k] as int == xs@[k] as int,
        decreases xs.len() - i,
    {
        r.push(xs[i] as u16);
        i = i + 1;
    }
    assert(r@.map_values(|x: u16| x as int) =~= xs@.map_values(|x: i128| x as int));
    r
}

/// The values of `xs`, each of which fits the narrower type.
pub fn narrow_u32(xs: &Vec<i128>) -> (r: Vec<u32>)
    requires
        forall|k: int| 0 <= k < xs@.len() ==> 0 <= #[trigger] xs@[k] < 0x1_0000_0000,
    ensures
        r@.map_values(|x: u32| x as int) == xs@.map_values(|x: i128| x as int),
{
    let mut r: Vec<u32> = Vec::new();
    let mut i: usize = 0;
    while i < xs.len()
        invariant
            i <= xs@.len(),
            r@.len() == i,
            forall|k: int| 0 <= k < xs@.len() ==> 0 <= #[trigger] xs@[k] < 0x1_0000_0000,
            forall|k: int| 0 <= k < i ==> #[trigger] r@[k] as int == xs@[k] as int,
        decreases xs.len() - i,
    {
        r.push(xs[i] as u32);
        i = i + 1;
    }
    assert(r@.map_values(|x: u32| x as int) =~= xs@.map_values(|x: i128| x as int));
    r
}

/// The values of `xs`, each of which fits the narrower type.
pub fn narrow_u64(xs: &Vec<i128>) -> (r: Vec<u64>)
    requires
        forall|k: int| 0 <= k < xs@.len() ==> 0 <= #[trigger] xs@[k] < 0x1_0000_0000_0000_0000,
    ensures
        r@.map_values(|x: u64| x as int) == xs@.map_values(|x: i128| x as int),
{
    let mut r: Vec<u64> = Vec::new();
    let mut i: usize = 0;
    while i < xs.len()
        invariant
            i <= xs@.len(),
            r@.len() == i,
            forall|k: int| 0 <= k < xs@.len() ==> 0 <= #[trigger] xs@[k] < 0x1_0000_0000_0000_0000,
            forall|k: int| 0 <= k < i ==> #[trigger] r@[k] as int == xs@[k] as int,
        decreases xs.len() - i,
    {
        r.push(xs[i] as u64);
        i = i + 1;
    }
    assert(r@.map_values(|x: u64| x as int) =~= xs@.map_values(|x: i128| x as int));
    r
}

/// The values of `xs`, each of which fits the narrower type.
pub fn narrow_i8(xs: &Vec<i128>) -> (r: Vec<i8>)
    requires
        forall|k: int| 0 <= k < xs@.len() ==> -0x80 <= #[trigger] xs@[k] < 0x80,
    ensures
        r@.map_values(|x: i8| x as int) == xs@.map_values(|x: i128| x as int),
{
    let mut r: Vec<i8> = Vec::new();
    let mut i: usize = 0;
    while i < xs.len()
        invariant
            i <= xs@.len(),
            r@.len() == i,
            forall|k: int| 0 <= k < xs@.len() ==> -0x80 <= #[trigger] xs@[k] < 0x80,
            forall|k: int| 0 <= k < i ==> #[trigger] r@[k] as int == xs@[k] as int,
        decreases xs.len() - i,
    {
        r.push(xs[i] as i8);
        i = i + 1;
    }
    assert(r@.map_values(|x: i8| x as int) =~= xs@.map_values(|x: i128| x as int));
    r
}

/// The values of `xs`, each of which fits the narrower type.
pub fn narrow_i16(xs: &Vec<i128>) -> (r: Vec<i16>)
    requires
        forall|k: int| 0 <= k < xs@.len() ==> -0x8000 <= #[trigger] xs@[k] < 0x8000,
    ensures
        r@.map_values(|x: i16| x as int) == xs@.map_values(|x: i128| x as int),
{
    let mut r: Vec<i16> = Vec::new();
    let mut i: usize = 0;
    while i < xs.len()
        invariant
            i <= xs@.len(),
            r@.len() == i,
            forall|k: int| 0 <= k < xs@.len() ==> -0x8000 <= #[trigger] xs@[k] < 0x8000,
            forall|k: int| 0 <= k < i ==> #[trigger] r@[k] as int == xs@[k] as int,
        decreases xs.len() - i,
    {
        r.push(xs[i] as i16);
        i = i + 1;
    }
    assert(r@.map_values(|x: i16| x as int) =~= xs@.map_values(|x: i128| x as int));
    r
}

/// The values of `xs`, each of which fits the narrower type.
pub fn narrow_i32(xs: &Vec<i128>) -> (r: Vec<i32>)
    requires
        forall|k: int| 0 <= k < xs@.len() ==> -0x8000_0000 <= #[trigger] xs@[k] < 0x8000_0000,
    ensures
        r@.map_values(|x: i32| x as int) == xs@.map_values(|x: i128| x as int),
{
    let mut r: Vec<i32> = Vec::new();
    let mut i: usize = 0;
    while i < xs.len()
        invariant
            i <= xs@.len(),
            r@.len() == i,
            forall|k: int| 0 <= k < xs@.len() ==> -0x8000_0000 <= #[trigger] xs@[k] < 0x8000_0000,
            forall|k: int| 0 <= k < i ==> #[trigger] r@[k] as int == xs@[k] as int,
        decreases xs.len() - i,
    {
        r.push(xs[i] as i32);
        i = i + 1;
    }
    assert(r@.map_values(|x: i32| x as int) =~= xs@.map_values(|x: i128| x as int));
    r
}

/// The values of `xs`, each of which fits the narrower type.
pub fn narrow_i64(xs: &Vec<i128>) -> (r: Vec<i64>)
    requires
        forall|k: int| 0 <= k < xs@.len() ==> -0x8000_0000_0000_0000 <= #[trigger] xs@[k] < 0x8000_0000_0000_0000,
    ensures
        r@.map_values(|x: i64| x as int) == xs@.map_values(|x: i128| x as int),
{
    let mut r: Vec<i64> = Vec::new();
    let mut i: usize = 0;
    while i < xs.len()
        invariant
            i <= xs@.len(),
            r@.len() == i,
            forall|k: int| 0 <= k < xs@.len() ==> -0x8000_0000_0000_0000 <= #[trigger] xs@[k] < 0x8000_0000_0000_0000,
            forall|k: int| 0 <= k < i ==> #[trigger] r@[k] as int == xs@[k] as int,
        decreases xs.len() - i,
    {
        r.push(xs[i] as i64);
        i = i + 1;
    }
    assert(r@.map_values(|x: i64| x as int) =~= xs@.map_values(|x: i128| x as int));
    r
}


pub proof fn lemma_values_bytes_len(d: Dtype, xs: Seq<int>)
    ensures
        values_bytes(d, xs).len() == xs.len() * width(d),
    decreases xs.len(),
{
    if xs.len() > 0 {
        lemma_values_bytes_len(d, xs.drop_first());
        crate::bytes::lemma_le_bytes_len(unsigned_repr(d, xs[0]), width(d));
        let n = xs.drop_first().len();
        assert(n * width(d) + width(d) == xs.len() * width(d)) by (nonlinear_arith)
            requires
                n + 1 == xs.len(),
        ;
    }
}

/// Law: a number takes exactly the bytes of its type; an array repeats its type's bytes once
/// per element with no padding and no count; a string takes 8 bytes of count and then its
/// UTF-8 bytes.
pub proof fn lemma_buffer_len(v: DataValueV)
    ensures
        buffer_of(v).len() == match v {
            DataValueV::Scalar(d, _) => width(d),
            DataValueV::Text(s) => 8 + encode_utf8(s).len(),
            DataValueV::Array(d, xs) => xs.len() * width(d),
        },
{
    match v {
        DataValueV::Scalar(d, x) => {
            crate::bytes::lemma_le_bytes_len(unsigned_repr(d, x), width(d));
        },
        DataValueV::Text(s) => {
            crate::bytes::lemma_le_bytes_len(encode_utf8(s).len(), 8);
        },
        DataValueV::Array(d, xs) => {
            lemma_values_bytes_len(d, xs);
        },
    }
}

/// Law: numbers are stored little-endian, in two's complement: byte `i` of a number's buffer is
/// the `i`-th base-256 digit of the number, a negative number being taken modulo `256` to the
/// power of its width.
pub proof fn lemma_number_bytes(d: Dtype, x: int, i: int)
    requires
        d != Dtype::Str,
        in_range(d, x),
        0 <= i < width(d),
    ensures
        buffer_of(DataValueV::Scalar(d, x)).len() == width(d),
        buffer_of(DataValueV::Scalar(d, x))[i] as int == ((if x < 0 {
            x + pow256(width(d)) as int
        } else {
            x
        }) / (pow256(i as nat) as int)) % 256,
{
    crate::bytes::lemma_le_bytes_len(unsigned_repr(d, x), width(d));
    crate::bytes::lemma_le_bytes_index(unsigned_repr(d, x), width(d), i);
}

/// Law: an array is stored as its elements' bytes one after another: the `k`-th stretch of
/// the element width holds the bytes of the `k`-th element.
pub proof fn lemma_array_bytes(d: Dtype, xs: Seq<int>, k: int)
    requires
        0 <= k < xs.len(),
    ensures
        buffer_of(DataValueV::Array(d, xs)).len() == xs.len() * width(d),
        buffer_of(DataValueV::Array(d, xs)).subrange(k * width(d), (k + 1) * width(d)) == buffer_of(
            DataValueV::Scalar(d, xs[k]),
        ),
    decreases xs.len(),
{
    lemma_values_bytes_len(d, xs);
    let w = width(d) as int;
    let rest = xs.drop_first();
    let b = values_bytes(d, xs);
    crate::bytes::lemma_le_bytes_len(unsigned_repr(d, xs[0]), width(d));
    lemma_values_bytes_len(d, rest);
    assert(b == value_bytes(d, xs[0]) + values_bytes(d, rest));
    if k == 0 {
        assert(b.subrange(0, w) =~= value_bytes(d, xs[0]));
    } else {
        lemma_array_bytes(d, rest, k - 1);
        assert(rest[k - 1] == xs[k]);
        assert((k - 1) * w + w == k * w) by (nonlinear_arith);
        assert(k * w + w == (k + 1) * w) by (nonlinear_arith);
        assert(b.subrange(k * w, (k + 1) * w) =~= values_bytes(d, rest).subrange((k - 1) * w, k * w));
    }
}

/// Law: a string is stored as its UTF-8 byte count in 8 little-endian bytes, then its UTF-8
/// bytes.
pub proof fn lemma_text_bytes(s: Seq<char>, i: int)
    requires
        0 <= i < 8,
    ensures
        buffer_of(DataValueV::Text(s)).len() == 8 + encode_utf8(s).len(),
        buffer_of(DataValueV::Text(s))[i] as int == (encode_utf8(s).len() / pow256(i as nat)) % 256,
        buffer_of(DataValueV::Text(s)).subrange(8, buffer_of(DataValueV::Text(s)).len() as int) == encode_utf8(s),
{
    let n = encode_utf8(s).len();
    crate::bytes::lemma_le_bytes_len(n, 8);
    crate::bytes::lemma_le_bytes_index(n, 8, i);
    let b = buffer_of(DataValueV::Text(s));
    assert(b == le_bytes(n, 8) + encode_utf8(s));
    assert(b[i] == le_bytes(n, 8)[i]);
    assert(b.subrange(8, b.len() as int) =~= encode_utf8(s));
}

} // verus!
