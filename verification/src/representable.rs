//! Types that can be represented in The Standard: their data type, their bytes, and which
//! conversions between them can be made without losing information.
use vstd::prelude::*;
use vstd::string::*;
use crate::error::{ElucidatorError, ElucidatorErrorV};
use crate::member::dtype::{dtype_name, Dtype};
use crate::value::{
    buffer_of, narrow_i16, narrow_i32, narrow_i64, narrow_i8, narrow_u16, narrow_u32, narrow_u64,
    narrow_u8, push_value, text_buffer, widen_i16, widen_i32, widen_i64, widen_i8, widen_u16,
    widen_u32, widen_u64, widen_u8, array_bytes, DataValue, DataValueV,
};
use crate::bytes::lemma_pow256_values;

verus! {

pub open spec fn is_float(d: Dtype) -> bool {
    d == Dtype::Float32 || d == Dtype::Float64
}

/// Signed types: the signed integers and the floats.
pub open spec fn signed_type(d: Dtype) -> bool {
    d == Dtype::SignedInteger8 || d == Dtype::SignedInteger16 || d == Dtype::SignedInteger32 || d
        == Dtype::SignedInteger64 || is_float(d)
}

/// The number of bits of a numeric type.
pub open spec fn bits(d: Dtype) -> nat {
    match d {
        Dtype::Byte | Dtype::SignedInteger8 => 8,
        Dtype::UnsignedInteger16 | Dtype::SignedInteger16 => 16,
        Dtype::UnsignedInteger32 | Dtype::SignedInteger32 | Dtype::Float32 => 32,
        _ => 64,
    }
}

/// Whether every value of numeric type `s` can be held by numeric type `t`: never from signed
/// to unsigned, from float to integer, or to fewer bits; an integer becomes a float only when
/// it has at most half the float's bits, a float only a wider float, and an unsigned integer a
/// signed one only with more bits.
pub open spec fn widens(s: Dtype, t: Dtype) -> bool {
    if s == t {
        true
    } else if (signed_type(s) && !signed_type(t)) || (is_float(s) && !is_float(t)) || bits(s) > bits(t) {
        false
    } else if !is_float(s) && is_float(t) {
        bits(s) <= bits(t) / 2
    } else if is_float(s) && is_float(t) {
        bits(s) < bits(t)
    } else if !signed_type(s) && signed_type(t) {
        bits(s) < bits(t)
    } else {
        true
    }
}

pub open spec fn array_name(d: Dtype) -> Seq<char> {
    dtype_name(d) + " array"@
}

/// The data type of a value.
pub open spec fn value_dtype(v: DataValueV) -> Dtype {
    match v {
        DataValueV::Scalar(d, _) => d,
        DataValueV::Text(_) => Dtype::Str,
        DataValueV::Array(d, _) => d,
    }
}

/// Converting a value to one number of type `t`: a number that `t` can hold is kept; a number
/// that it cannot is narrowing; anything else cannot be converted.
pub open spec fn scalar_conversion(v: DataValueV, t: Dtype) -> Result<int, ElucidatorErrorV> {
    match v {
        DataValueV::Scalar(s, x) => if widens(s, t) {
            Ok(x)
        } else {
            Err(ElucidatorErrorV::Narrowing { from: dtype_name(s), to: dtype_name(t) })
        },
        DataValueV::Text(_) => Err(ElucidatorErrorV::Conversion { from: "string"@, to: dtype_name(t) }),
        DataValueV::Array(s, _) => Err(ElucidatorErrorV::Conversion { from: array_name(s), to: dtype_name(t) }),
    }
}

/// Converting a value to an array of type `t`, likewise.
pub open spec fn array_conversion(v: DataValueV, t: Dtype) -> Result<Seq<int>, ElucidatorErrorV> {
    match v {
        DataValueV::Array(s, xs) => if widens(s, t) {
            Ok(xs)
        } else {
            Err(ElucidatorErrorV::Narrowing { from: array_name(s), to: array_name(t) })
        },
        DataValueV::Text(_) => Err(ElucidatorErrorV::Conversion { from: "string"@, to: array_name(t) }),
        DataValueV::Scalar(s, _) => Err(ElucidatorErrorV::Conversion { from: dtype_name(s), to: array_name(t) }),
    }
}

/// Converting a value to a string: only a string converts.
pub open spec fn string_conversion(v: DataValueV) -> Result<Seq<char>, ElucidatorErrorV> {
    match v {
        DataValueV::Text(s) => Ok(s),
        DataValueV::Scalar(s, _) => Err(ElucidatorErrorV::Conversion { from: dtype_name(s), to: "string"@ }),
        DataValueV::Array(s, _) => Err(ElucidatorErrorV::Conversion { from: array_name(s), to: "string"@ }),
    }
}

pub open spec fn scalar_result<T>(r: Result<T, ElucidatorError>, v: spec_fn(T) -> int) -> Result<int, ElucidatorErrorV> {
    match r {
        Ok(x) => Ok(v(x)),
        Err(e) => Err(e@),
    }
}

/// A value that can be represented in The Standard.
pub trait Representable {
    /// The value this stands for.
    spec fn value(&self) -> DataValueV;

    /// Determine whether this type contains numeric values
    fn is_numeric(&self) -> (b: bool)
        ensures
            b == !(self.value() is Text),
    ;

    /// Determine if this type is an array
    fn is_array(&self) -> (b: bool)
        ensures
            b == self.value() is Array,
    ;

    /// Return the Dtype of this object
    fn get_dtype(&self) -> (d: Dtype)
        ensures
            d == value_dtype(self.value()),
    ;

    /// Determine whether this type is signed
    fn is_signed(&self) -> (b: bool)
        ensures
            b == signed_type(value_dtype(self.value())),
    ;

    /// Determine whether this type is an integer
    fn is_integer(&self) -> (b: bool)
        ensures
            b == (!(self.value() is Text) && !is_float(value_dtype(self.value()))),
    ;

    /// Determine whether this type is floating-point
    fn is_floating(&self) -> (b: bool)
        ensures
            b == is_float(value_dtype(self.value())),
    ;

    /// Produce an equivalent buffer of bytes
    fn as_buffer(&self) -> (r: Vec<u8>)
        ensures
            r@ == buffer_of(self.value()),
    ;

    /// Attempt to convert this type into a u8
    fn as_u8(&self) -> (r: Result<u8, ElucidatorError>)
        ensures
            match r {
                Ok(x) => scalar_conversion(self.value(), Dtype::Byte) == Ok::<int, ElucidatorErrorV>(x as int),
                Err(e) => scalar_conversion(self.value(), Dtype::Byte) == Err::<int, ElucidatorErrorV>(e@),
            },
    ;

    /// Attempt to convert this type into a u16
    fn as_u16(&self) -> (r: Result<u16, ElucidatorError>)
        ensures
            match r {
                Ok(x) => scalar_conversion(self.value(), Dtype::UnsignedInteger16) == Ok::<int, ElucidatorErrorV>(x as int),
                Err(e) => scalar_conversion(self.value(), Dtype::UnsignedInteger16) == Err::<int, ElucidatorErrorV>(e@),
            },
    ;

    /// Attempt to convert this type into a u32
    fn as_u32(&self) -> (r: Result<u32, ElucidatorError>)
        ensures
            match r {
                Ok(x) => scalar_conversion(self.value(), Dtype::UnsignedInteger32) == Ok::<int, ElucidatorErrorV>(x as int),
                Err(e) => scalar_conversion(self.value(), Dtype::UnsignedInteger32) == Err::<int, ElucidatorErrorV>(e@),
            },
    ;

    /// Attempt to convert this type into a u64
    fn as_u64(&self) -> (r: Result<u64, ElucidatorError>)
        ensures
            match r {
                Ok(x) => scalar_conversion(self.value(), Dtype::UnsignedInteger64) == Ok::<int, ElucidatorErrorV>(x as int),
                Err(e) => scalar_conversion(self.value(), Dtype::UnsignedInteger64) == Err::<int, ElucidatorErrorV>(e@),
            },
    ;

    /// Attempt to convert this type into a i8
    fn as_i8(&self) -> (r: Result<i8, ElucidatorError>)
        ensures
            match r {
                Ok(x) => scalar_conversion(self.value(), Dtype::SignedInteger8) == Ok::<int, ElucidatorErrorV>(x as int),
                Err(e) => scalar_conversion(self.value(), Dtype::SignedInteger8) == Err::<int, ElucidatorErrorV>(e@),
            },
    ;

    /// Attempt to convert this type into a i16
    fn as_i16(&self) -> (r: Result<i16, ElucidatorError>)
        ensures
            match r {
                Ok(x) => scalar_conversion(self.value(), Dtype::SignedInteger16) == Ok::<int, ElucidatorErrorV>(x as int),
                Err(e) => scalar_conversion(self.value(), Dtype::SignedInteger16) == Err::<int, ElucidatorErrorV>(e@),
            },
    ;

    /// Attempt to convert this type into a i32
    fn as_i32(&self) -> (r: Result<i32, ElucidatorError>)
        ensures
            match r {
                Ok(x) => scalar_conversion(self.value(), Dtype::SignedInteger32) == Ok::<int, ElucidatorErrorV>(x as int),
                Err(e) => scalar_conversion(self.value(), Dtype::SignedInteger32) == Err::<int, ElucidatorErrorV>(e@),
            },
    ;

    /// Attempt to convert this type into a i64
    fn as_i64(&self) -> (r: Result<i64, ElucidatorError>)
        ensures
            match r {
                Ok(x) => scalar_conversion(self.value(), Dtype::SignedInteger64) == Ok::<int, ElucidatorErrorV>(x as int),
                Err(e) => scalar_conversion(self.value(), Dtype::SignedInteger64) == Err::<int, ElucidatorErrorV>(e@),
            },
    ;

    /// Attempt to convert this type into a string
    fn as_string(&self) -> (r: Result<String, ElucidatorError>)
        ensures
            match r {
                Ok(s) => string_conversion(self.value()) == Ok::<Seq<char>, ElucidatorErrorV>(s@),
                Err(e) => string_conversion(self.value()) == Err::<Seq<char>, ElucidatorErrorV>(e@),
            },
    ;

    /// Attempt to convert this type into an array of u8
    fn as_vec_u8(&self) -> (r: Result<Vec<u8>, ElucidatorError>)
        ensures
            match r {
                Ok(v) => array_conversion(self.value(), Dtype::Byte) == Ok::<Seq<int>, ElucidatorErrorV>(
                    v@.map_values(|x: u8| x as int),
                ),
                Err(e) => array_conversion(self.value(), Dtype::Byte) == Err::<Seq<int>, ElucidatorErrorV>(e@),
            },
    ;

    /// Attempt to convert this type into an array of u16
    fn as_vec_u16(&self) -> (r: Result<Vec<u16>, ElucidatorError>)
        ensures
            match r {
                Ok(v) => array_conversion(self.value(), Dtype::UnsignedInteger16) == Ok::<Seq<int>, ElucidatorErrorV>(
                    v@.map_values(|x: u16| x as int),
                ),
                Err(e) => array_conversion(self.value(), Dtype::UnsignedInteger16) == Err::<Seq<int>, ElucidatorErrorV>(e@),
            },
    ;

    /// Attempt to convert this type into an array of u32
    fn as_vec_u32(&self) -> (r: Result<Vec<u32>, ElucidatorError>)
        ensures
            match r {
                Ok(v) => array_conversion(self.value(), Dtype::UnsignedInteger32) == Ok::<Seq<int>, ElucidatorErrorV>(
                    v@.map_values(|x: u32| x as int),
                ),
                Err(e) => array_conversion(self.value(), Dtype::UnsignedInteger32) == Err::<Seq<int>, ElucidatorErrorV>(e@),
            },
    ;

    /// Attempt to convert this type into an array of u64
    fn as_vec_u64(&self) -> (r: Result<Vec<u64>, ElucidatorError>)
        ensures
            match r {
                Ok(v) => array_conversion(self.value(), Dtype::UnsignedInteger64) == Ok::<Seq<int>, ElucidatorErrorV>(
                    v@.map_values(|x: u64| x as int),
                ),
                Err(e) => array_conversion(self.value(), Dtype::UnsignedInteger64) == Err::<Seq<int>, ElucidatorErrorV>(e@),
            },
    ;

    /// Attempt to convert this type into an array of i8
    fn as_vec_i8(&self) -> (r: Result<Vec<i8>, ElucidatorError>)
        ensures
            match r {
                Ok(v) => array_conversion(self.value(), Dtype::SignedInteger8) == Ok::<Seq<int>, ElucidatorErrorV>(
                    v@.map_values(|x: i8| x as int),
                ),
                Err(e) => array_conversion(self.value(), Dtype::SignedInteger8) == Err::<Seq<int>, ElucidatorErrorV>(e@),
            },
    ;

    /// Attempt to convert this type into an array of i16
    fn as_vec_i16(&self) -> (r: Result<Vec<i16>, ElucidatorError>)
        ensures
            match r {
                Ok(v) => array_conversion(self.value(), Dtype::SignedInteger16) == Ok::<Seq<int>, ElucidatorErrorV>(
                    v@.map_values(|x: i16| x as int),
                ),
                Err(e) => array_conversion(self.value(), Dtype::SignedInteger16) == Err::<Seq<int>, ElucidatorErrorV>(e@),
            },
    ;

    /// Attempt to convert this type into an array of i32
    fn as_vec_i32(&self) -> (r: Result<Vec<i32>, ElucidatorError>)
        ensures
            match r {
                Ok(v) => array_conversion(self.value(), Dtype::SignedInteger32) == Ok::<Seq<int>, ElucidatorErrorV>(
                    v@.map_values(|x: i32| x as int),
                ),
                Err(e) => array_conversion(self.value(), Dtype::SignedInteger32) == Err::<Seq<int>, ElucidatorErrorV>(e@),
            },
    ;

    /// Attempt to convert this type into an array of i64
    fn as_vec_i64(&self) -> (r: Result<Vec<i64>, ElucidatorError>)
        ensures
            match r {
                Ok(v) => array_conversion(self.value(), Dtype::SignedInteger64) == Ok::<Seq<int>, ElucidatorErrorV>(
                    v@.map_values(|x: i64| x as int),
                ),
                Err(e) => array_conversion(self.value(), Dtype::SignedInteger64) == Err::<Seq<int>, ElucidatorErrorV>(e@),
            },
    ;
}

impl Representable for u8 {
    open spec fn value(&self) -> DataValueV {
        DataValueV::Scalar(Dtype::Byte, *self as int)
    }

    fn is_numeric(&self) -> (b: bool) {
        true
    }

    fn is_array(&self) -> (b: bool) {
        false
    }

    fn get_dtype(&self) -> (d: Dtype) {
        Dtype::Byte
    }

    fn is_signed(&self) -> (b: bool) {
        false
    }

    fn is_integer(&self) -> (b: bool) {
        true
    }

    fn is_floating(&self) -> (b: bool) {
        false
    }

    fn as_buffer(&self) -> (r: Vec<u8>) {
        proof {
            lemma_pow256_values();
        }
        let mut out: Vec<u8> = Vec::new();
        push_value(&mut out, Dtype::Byte, *self as i128);
        out
    }

    fn as_u8(&self) -> (r: Result<u8, ElucidatorError>) {
        Ok(*self as u8)
    }

    fn as_u16(&self) -> (r: Result<u16, ElucidatorError>) {
        Ok(*self as u16)
    }

    fn as_u32(&self) -> (r: Result<u32, ElucidatorError>) {
        Ok(*self as u32)
    }

    fn as_u64(&self) -> (r: Result<u64, ElucidatorError>) {
        Ok(*self as u64)
    }

    fn as_i8(&self) -> (r: Result<i8, ElucidatorError>) {
        proof { reveal_strlit("u8"); reveal_strlit("i8"); assert("u8"@ =~= dtype_name(Dtype::Byte)); assert("i8"@ =~= dtype_name(Dtype::SignedInteger8)); }
        ElucidatorError::new_narrowing("u8", "i8")
    }

    fn as_i16(&self) -> (r: Result<i16, ElucidatorError>) {
        Ok(*self as i16)
    }

    fn as_i32(&self) -> (r: Result<i32, ElucidatorError>) {
        Ok(*self as i32)
    }

    fn as_i64(&self) -> (r: Result<i64, ElucidatorError>) {
        Ok(*self as i64)
    }

    fn as_string(&self) -> (r: Result<String, ElucidatorError>) {
        proof { reveal_strlit("u8"); reveal_strlit("string"); assert("u8"@ =~= dtype_name(Dtype::Byte)); }
        ElucidatorError::new_conversion("u8", "string")
    }

    fn as_vec_u8(&self) -> (r: Result<Vec<u8>, ElucidatorError>) {
        proof { reveal_strlit("u8"); reveal_strlit("u8 array"); reveal_strlit(" array"); assert("u8"@ =~= dtype_name(Dtype::Byte)); assert("u8 array"@ =~= array_name(Dtype::Byte)); }
        ElucidatorError::new_conversion("u8", "u8 array")
    }

    fn as_vec_u16(&self) -> (r: Result<Vec<u16>, ElucidatorError>) {
        proof { reveal_strlit("u8"); reveal_strlit("u16 array"); reveal_strlit(" array"); assert("u8"@ =~= dtype_name(Dtype::Byte)); assert("u16 array"@ =~= array_name(Dtype::UnsignedInteger16)); }
        ElucidatorError::new_conversion("u8", "u16 array")
    }

    fn as_vec_u32(&self) -> (r: Result<Vec<u32>, ElucidatorError>) {
        proof { reveal_strlit("u8"); reveal_strlit("u32 array"); reveal_strlit(" array"); assert("u8"@ =~= dtype_name(Dtype::Byte)); assert("u32 array"@ =~= array_name(Dtype::UnsignedInteger32)); }
        ElucidatorError::new_conversion("u8", "u32 array")
    }

    fn as_vec_u64(&self) -> (r: Result<Vec<u64>, ElucidatorError>) {
        proof { reveal_strlit("u8"); reveal_strlit("u64 array"); reveal_strlit(" array"); assert("u8"@ =~= dtype_name(Dtype::Byte)); assert("u64 array"@ =~= array_name(Dtype::UnsignedInteger64)); }
        ElucidatorError::new_conversion("u8", "u64 array")
    }

    fn as_vec_i8(&self) -> (r: Result<Vec<i8>, ElucidatorError>) {
        proof { reveal_strlit("u8"); reveal_strlit("i8 array"); reveal_strlit(" array"); assert("u8"@ =~= dtype_name(Dtype::Byte)); assert("i8 array"@ =~= array_name(Dtype::SignedInteger8)); }
        ElucidatorError::new_conversion("u8", "i8 array")
    }

    fn as_vec_i16(&self) -> (r: Result<Vec<i16>, ElucidatorError>) {
        proof { reveal_strlit("u8"); reveal_strlit("i16 array"); reveal_strlit(" array"); assert("u8"@ =~= dtype_name(Dtype::Byte)); assert("i16 array"@ =~= array_name(Dtype::SignedInteger16)); }
        ElucidatorError::new_conversion("u8", "i16 array")
    }

    fn as_vec_i32(&self) -> (r: Result<Vec<i32>, ElucidatorError>) {
        proof { reveal_strlit("u8"); reveal_strlit("i32 array"); reveal_strlit(" array"); assert("u8"@ =~= dtype_name(Dtype::Byte)); assert("i32 array"@ =~= array_name(Dtype::SignedInteger32)); }
        ElucidatorError::new_conversion("u8", "i32 array")
    }

    fn as_vec_i64(&self) -> (r: Result<Vec<i64>, ElucidatorError>) {
        proof { reveal_strlit("u8"); reveal_strlit("i64 array"); reveal_strlit(" array"); assert("u8"@ =~= dtype_name(Dtype::Byte)); assert("i64 array"@ =~= array_name(Dtype::SignedInteger64)); }
        ElucidatorError::new_conversion("u8", "i64 array")
    }
}

impl Representable for u16 {
    open spec fn value(&self) -> DataValueV {
        DataValueV::Scalar(Dtype::UnsignedInteger16, *self as int)
    }

    fn is_numeric(&self) -> (b: bool) {
        true
    }

    fn is_array(&self) -> (b: bool) {
        false
    }

    fn get_dtype(&self) -> (d: Dtype) {
        Dtype::UnsignedInteger16
    }

    fn is_signed(&self) -> (b: bool) {
        false
    }

    fn is_integer(&self) -> (b: bool) {
        true
    }

    fn is_floating(&self) -> (b: bool) {
        false
    }

    fn as_buffer(&self) -> (r: Vec<u8>) {
        proof {
            lemma_pow256_values();
        }
        let mut out: Vec<u8> = Vec::new();
        push_value(&mut out, Dtype::UnsignedInteger16, *self as i128);
        out
    }

    fn as_u8(&self) -> (r: Result<u8, ElucidatorError>) {
        proof { reveal_strlit("u16"); reveal_strlit("u8"); assert("u16"@ =~= dtype_name(Dtype::UnsignedInteger16)); assert("u8"@ =~= dtype_name(Dtype::Byte)); }
        ElucidatorError::new_narrowing("u16", "u8")
    }

    fn as_u16(&self) -> (r: Result<u16, ElucidatorError>) {
        Ok(*self as u16)
    }

    fn as_u32(&self) -> (r: Result<u32, ElucidatorError>) {
        Ok(*self as u32)
    }

    fn as_u64(&self) -> (r: Result<u64, ElucidatorError>) {
        Ok(*self as u64)
    }

    fn as_i8(&self) -> (r: Result<i8, ElucidatorError>) {
        proof { reveal_strlit("u16"); reveal_strlit("i8"); assert("u16"@ =~= dtype_name(Dtype::UnsignedInteger16)); assert("i8"@ =~= dtype_name(Dtype::SignedInteger8)); }
        ElucidatorError::new_narrowing("u16", "i8")
    }

    fn as_i16(&self) -> (r: Result<i16, ElucidatorError>) {
        proof { reveal_strlit("u16"); reveal_strlit("i16"); assert("u16"@ =~= dtype_name(Dtype::UnsignedInteger16)); assert("i16"@ =~= dtype_name(Dtype::SignedInteger16)); }
        ElucidatorError::new_narrowing("u16", "i16")
    }

    fn as_i32(&self) -> (r: Result<i32, ElucidatorError>) {
        Ok(*self as i32)
    }

    fn as_i64(&self) -> (r: Result<i64, ElucidatorError>) {
        Ok(*self as i64)
    }

    fn as_string(&self) -> (r: Result<String, ElucidatorError>) {
        proof { reveal_strlit("u16"); reveal_strlit("string"); assert("u16"@ =~= dtype_name(Dtype::UnsignedInteger16)); }
        ElucidatorError::new_conversion("u16", "string")
    }

    fn as_vec_u8(&self) -> (r: Result<Vec<u8>, ElucidatorError>) {
        proof { reveal_strlit("u16"); reveal_strlit("u8 array"); reveal_strlit(" array"); assert("u16"@ =~= dtype_name(Dtype::UnsignedInteger16)); assert("u8 array"@ =~= array_name(Dtype::Byte)); }
        ElucidatorError::new_conversion("u16", "u8 array")
    }

    fn as_vec_u16(&self) -> (r: Result<Vec<u16>, ElucidatorError>) {
        proof { reveal_strlit("u16"); reveal_strlit("u16 array"); reveal_strlit(" array"); assert("u16"@ =~= dtype_name(Dtype::UnsignedInteger16)); assert("u16 array"@ =~= array_name(Dtype::UnsignedInteger16)); }
        ElucidatorError::new_conversion("u16", "u16 array")
    }

    fn as_vec_u32(&self) -> (r: Result<Vec<u32>, ElucidatorError>) {
        proof { reveal_strlit("u16"); reveal_strlit("u32 array"); reveal_strlit(" array"); assert("u16"@ =~= dtype_name(Dtype::UnsignedInteger16)); assert("u32 array"@ =~= array_name(Dtype::UnsignedInteger32)); }
        ElucidatorError::new_conversion("u16", "u32 array")
    }

    fn as_vec_u64(&self) -> (r: Result<Vec<u64>, ElucidatorError>) {
        proof { reveal_strlit("u16"); reveal_strlit("u64 array"); reveal_strlit(" array"); assert("u16"@ =~= dtype_name(Dtype::UnsignedInteger16)); assert("u64 array"@ =~= array_name(Dtype::UnsignedInteger64)); }
        ElucidatorError::new_conversion("u16", "u64 array")
    }

    fn as_vec_i8(&self) -> (r: Result<Vec<i8>, ElucidatorError>) {
        proof { reveal_strlit("u16"); reveal_strlit("i8 array"); reveal_strlit(" array"); assert("u16"@ =~= dtype_name(Dtype::UnsignedInteger16)); assert("i8 array"@ =~= array_name(Dtype::SignedInteger8)); }
        ElucidatorError::new_conversion("u16", "i8 array")
    }

    fn as_vec_i16(&self) -> (r: Result<Vec<i16>, ElucidatorError>) {
        proof { reveal_strlit("u16"); reveal_strlit("i16 array"); reveal_strlit(" array"); assert("u16"@ =~= dtype_name(Dtype::UnsignedInteger16)); assert("i16 array"@ =~= array_name(Dtype::SignedInteger16)); }
        ElucidatorError::new_conversion("u16", "i16 array")
    }

    fn as_vec_i32(&self) -> (r: Result<Vec<i32>, ElucidatorError>) {
        proof { reveal_strlit("u16"); reveal_strlit("i32 array"); reveal_strlit(" array"); assert("u16"@ =~= dtype_name(Dtype::UnsignedInteger16)); assert("i32 array"@ =~= array_name(Dtype::SignedInteger32)); }
        ElucidatorError::new_conversion("u16", "i32 array")
    }

    fn as_vec_i64(&self) -> (r: Result<Vec<i64>, ElucidatorError>) {
        proof { reveal_strlit("u16"); reveal_strlit("i64 array"); reveal_strlit(" array"); assert("u16"@ =~= dtype_name(Dtype::UnsignedInteger16)); assert("i64 array"@ =~= array_name(Dtype::SignedInteger64)); }
        ElucidatorError::new_conversion("u16", "i64 array")
    }
}

impl Representable for u32 {
    open spec fn value(&self) -> DataValueV {
        DataValueV::Scalar(Dtype::UnsignedInteger32, *self as int)
    }

    fn is_numeric(&self) -> (b: bool) {
        true
    }

    fn is_array(&self) -> (b: bool) {
        false
    }

    fn get_dtype(&self) -> (d: Dtype) {
        Dtype::UnsignedInteger32
    }

    fn is_signed(&self) -> (b: bool) {
        false
    }

    fn is_integer(&self) -> (b: bool) {
        true
    }

    fn is_floating(&self) -> (b: bool) {
        false
    }

    fn as_buffer(&self) -> (r: Vec<u8>) {
        proof {
            lemma_pow256_values();
        }
        let mut out: Vec<u8> = Vec::new();
        push_value(&mut out, Dtype::UnsignedInteger32, *self as i128);
        out
    }

    fn as_u8(&self) -> (r: Result<u8, ElucidatorError>) {
        proof { reveal_strlit("u32"); reveal_strlit("u8"); assert("u32"@ =~= dtype_name(Dtype::UnsignedInteger32)); assert("u8"@ =~= dtype_name(Dtype::Byte)); }
        ElucidatorError::new_narrowing("u32", "u8")
    }

    fn as_u16(&self) -> (r: Result<u16, ElucidatorError>) {
        proof { reveal_strlit("u32"); reveal_strlit("u16"); assert("u32"@ =~= dtype_name(Dtype::UnsignedInteger32)); assert("u16"@ =~= dtype_name(Dtype::UnsignedInteger16)); }
        ElucidatorError::new_narrowing("u32", "u16")
    }

    fn as_u32(&self) -> (r: Result<u32, ElucidatorError>) {
        Ok(*self as u32)
    }

    fn as_u64(&self) -> (r: Result<u64, ElucidatorError>) {
        Ok(*self as u64)
    }

    fn as_i8(&self) -> (r: Result<i8, ElucidatorError>) {
        proof { reveal_strlit("u32"); reveal_strlit("i8"); assert("u32"@ =~= dtype_name(Dtype::UnsignedInteger32)); assert("i8"@ =~= dtype_name(Dtype::SignedInteger8)); }
        ElucidatorError::new_narrowing("u32", "i8")
    }

    fn as_i16(&self) -> (r: Result<i16, ElucidatorError>) {
        proof { reveal_strlit("u32"); reveal_strlit("i16"); assert("u32"@ =~= dtype_name(Dtype::UnsignedInteger32)); assert("i16"@ =~= dtype_name(Dtype::SignedInteger16)); }
        ElucidatorError::new_narrowing("u32", "i16")
    }

    fn as_i32(&self) -> (r: Result<i32, ElucidatorError>) {
        proof { reveal_strlit("u32"); reveal_strlit("i32"); assert("u32"@ =~= dtype_name(Dtype::UnsignedInteger32)); assert("i32"@ =~= dtype_name(Dtype::SignedInteger32)); }
        ElucidatorError::new_narrowing("u32", "i32")
    }

    fn as_i64(&self) -> (r: Result<i64, ElucidatorError>) {
        Ok(*self as i64)
    }

    fn as_string(&self) -> (r: Result<String, ElucidatorError>) {
        proof { reveal_strlit("u32"); reveal_strlit("string"); assert("u32"@ =~= dtype_name(Dtype::UnsignedInteger32)); }
        ElucidatorError::new_conversion("u32", "string")
    }

    fn as_vec_u8(&self) -> (r: Result<Vec<u8>, ElucidatorError>) {
        proof { reveal_strlit("u32"); reveal_strlit("u8 array"); reveal_strlit(" array"); assert("u32"@ =~= dtype_name(Dtype::UnsignedInteger32)); assert("u8 array"@ =~= array_name(Dtype::Byte)); }
        ElucidatorError::new_conversion("u32", "u8 array")
    }

    fn as_vec_u16(&self) -> (r: Result<Vec<u16>, ElucidatorError>) {
        proof { reveal_strlit("u32"); reveal_strlit("u16 array"); reveal_strlit(" array"); assert("u32"@ =~= dtype_name(Dtype::UnsignedInteger32)); assert("u16 array"@ =~= array_name(Dtype::UnsignedInteger16)); }
        ElucidatorError::new_conversion("u32", "u16 array")
    }

    fn as_vec_u32(&self) -> (r: Result<Vec<u32>, ElucidatorError>) {
        proof { reveal_strlit("u32"); reveal_strlit("u32 array"); reveal_strlit(" array"); assert("u32"@ =~= dtype_name(Dtype::UnsignedInteger32)); assert("u32 array"@ =~= array_name(Dtype::UnsignedInteger32)); }
        ElucidatorError::new_conversion("u32", "u32 array")
    }

    fn as_vec_u64(&self) -> (r: Result<Vec<u64>, ElucidatorError>) {
        proof { reveal_strlit("u32"); reveal_strlit("u64 array"); reveal_strlit(" array"); assert("u32"@ =~= dtype_name(Dtype::UnsignedInteger32)); assert("u64 array"@ =~= array_name(Dtype::UnsignedInteger64)); }
        ElucidatorError::new_conversion("u32", "u64 array")
    }

    fn as_vec_i8(&self) -> (r: Result<Vec<i8>, ElucidatorError>) {
        proof { reveal_strlit("u32"); reveal_strlit("i8 array"); reveal_strlit(" array"); assert("u32"@ =~= dtype_name(Dtype::UnsignedInteger32)); assert("i8 array"@ =~= array_name(Dtype::SignedInteger8)); }
        ElucidatorError::new_conversion("u32", "i8 array")
    }

    fn as_vec_i16(&self) -> (r: Result<Vec<i16>, ElucidatorError>) {
        proof { reveal_strlit("u32"); reveal_strlit("i16 array"); reveal_strlit(" array"); assert("u32"@ =~= dtype_name(Dtype::UnsignedInteger32)); assert("i16 array"@ =~= array_name(Dtype::SignedInteger16)); }
        ElucidatorError::new_conversion("u32", "i16 array")
    }

    fn as_vec_i32(&self) -> (r: Result<Vec<i32>, ElucidatorError>) {
        proof { reveal_strlit("u32"); reveal_strlit("i32 array"); reveal_strlit(" array"); assert("u32"@ =~= dtype_name(Dtype::UnsignedInteger32)); assert("i32 array"@ =~= array_name(Dtype::SignedInteger32)); }
        ElucidatorError::new_conversion("u32", "i32 array")
    }

    fn as_vec_i64(&self) -> (r: Result<Vec<i64>, ElucidatorError>) {
        proof { reveal_strlit("u32"); reveal_strlit("i64 array"); reveal_strlit(" array"); assert("u32"@ =~= dtype_name(Dtype::UnsignedInteger32)); assert("i64 array"@ =~= array_name(Dtype::SignedInteger64)); }
        ElucidatorError::new_conversion("u32", "i64 array")
    }
}

impl Representable for u64 {
    open spec fn value(&self) -> DataValueV {
        DataValueV::Scalar(Dtype::UnsignedInteger64, *self as int)
    }

    fn is_numeric(&self) -> (b: bool) {
        true
    }

    fn is_array(&self) -> (b: bool) {
        false
    }

    fn get_dtype(&self) -> (d: Dtype) {
        Dtype::UnsignedInteger64
    }

    fn is_signed(&self) -> (b: bool) {
        false
    }

    fn is_integer(&self) -> (b: bool) {
        true
    }

    fn is_floating(&self) -> (b: bool) {
        false
    }

    fn as_buffer(&self) -> (r: Vec<u8>) {
        proof {
            lemma_pow256_values();
        }
        let mut out: Vec<u8> = Vec::new();
        push_value(&mut out, Dtype::UnsignedInteger64, *self as i128);
        out
    }

    fn as_u8(&self) -> (r: Result<u8, ElucidatorError>) {
        proof { reveal_strlit("u64"); reveal_strlit("u8"); assert("u64"@ =~= dtype_name(Dtype::UnsignedInteger64)); assert("u8"@ =~= dtype_name(Dtype::Byte)); }
        ElucidatorError::new_narrowing("u64", "u8")
    }

    fn as_u16(&self) -> (r: Result<u16, ElucidatorError>) {
        proof { reveal_strlit("u64"); reveal_strlit("u16"); assert("u64"@ =~= dtype_name(Dtype::UnsignedInteger64)); assert("u16"@ =~= dtype_name(Dtype::UnsignedInteger16)); }
        ElucidatorError::new_narrowing("u64", "u16")
    }

    fn as_u32(&self) -> (r: Result<u32, ElucidatorError>) {
        proof { reveal_strlit("u64"); reveal_strlit("u32"); assert("u64"@ =~= dtype_name(Dtype::UnsignedInteger64)); assert("u32"@ =~= dtype_name(Dtype::UnsignedInteger32)); }
        ElucidatorError::new_narrowing("u64", "u32")
    }

    fn as_u64(&self) -> (r: Result<u64, ElucidatorError>) {
        Ok(*self as u64)
    }

    fn as_i8(&self) -> (r: Result<i8, ElucidatorError>) {
        proof { reveal_strlit("u64"); reveal_strlit("i8"); assert("u64"@ =~= dtype_name(Dtype::UnsignedInteger64)); assert("i8"@ =~= dtype_name(Dtype::SignedInteger8)); }
        ElucidatorError::new_narrowing("u64", "i8")
    }

    fn as_i16(&self) -> (r: Result<i16, ElucidatorError>) {
        proof { reveal_strlit("u64"); reveal_strlit("i16"); assert("u64"@ =~= dtype_name(Dtype::UnsignedInteger64)); assert("i16"@ =~= dtype_name(Dtype::SignedInteger16)); }
        ElucidatorError::new_narrowing("u64", "i16")
    }

    fn as_i32(&self) -> (r: Result<i32, ElucidatorError>) {
        proof { reveal_strlit("u64"); reveal_strlit("i32"); assert("u64"@ =~= dtype_name(Dtype::UnsignedInteger64)); assert("i32"@ =~= dtype_name(Dtype::SignedInteger32)); }
        ElucidatorError::new_narrowing("u64", "i32")
    }

    fn as_i64(&self) -> (r: Result<i64, ElucidatorError>) {
        proof { reveal_strlit("u64"); reveal_strlit("i64"); assert("u64"@ =~= dtype_name(Dtype::UnsignedInteger64)); assert("i64"@ =~= dtype_name(Dtype::SignedInteger64)); }
        ElucidatorError::new_narrowing("u64", "i64")
    }

    fn as_string(&self) -> (r: Result<String, ElucidatorError>) {
        proof { reveal_strlit("u64"); reveal_strlit("string"); assert("u64"@ =~= dtype_name(Dtype::UnsignedInteger64)); }
        ElucidatorError::new_conversion("u64", "string")
    }

    fn as_vec_u8(&self) -> (r: Result<Vec<u8>, ElucidatorError>) {
        proof { reveal_strlit("u64"); reveal_strlit("u8 array"); reveal_strlit(" array"); assert("u64"@ =~= dtype_name(Dtype::UnsignedInteger64)); assert("u8 array"@ =~= array_name(Dtype::Byte)); }
        ElucidatorError::new_conversion("u64", "u8 array")
    }

    fn as_vec_u16(&self) -> (r: Result<Vec<u16>, ElucidatorError>) {
        proof { reveal_strlit("u64"); reveal_strlit("u16 array"); reveal_strlit(" array"); assert("u64"@ =~= dtype_name(Dtype::UnsignedInteger64)); assert("u16 array"@ =~= array_name(Dtype::UnsignedInteger16)); }
        ElucidatorError::new_conversion("u64", "u16 array")
    }

    fn as_vec_u32(&self) -> (r: Result<Vec<u32>, ElucidatorError>) {
        proof { reveal_strlit("u64"); reveal_strlit("u32 array"); reveal_strlit(" array"); assert("u64"@ =~= dtype_name(Dtype::UnsignedInteger64)); assert("u32 array"@ =~= array_name(Dtype::UnsignedInteger32)); }
        ElucidatorError::new_conversion("u64", "u32 array")
    }

    fn as_vec_u64(&self) -> (r: Result<Vec<u64>, ElucidatorError>) {
        proof { reveal_strlit("u64"); reveal_strlit("u64 array"); reveal_strlit(" array"); assert("u64"@ =~= dtype_name(Dtype::UnsignedInteger64)); assert("u64 array"@ =~= array_name(Dtype::UnsignedInteger64)); }
        ElucidatorError::new_conversion("u64", "u64 array")
    }

    fn as_vec_i8(&self) -> (r: Result<Vec<i8>, ElucidatorError>) {
        proof { reveal_strlit("u64"); reveal_strlit("i8 array"); reveal_strlit(" array"); assert("u64"@ =~= dtype_name(Dtype::UnsignedInteger64)); assert("i8 array"@ =~= array_name(Dtype::SignedInteger8)); }
        ElucidatorError::new_conversion("u64", "i8 array")
    }

    fn as_vec_i16(&self) -> (r: Result<Vec<i16>, ElucidatorError>) {
        proof { reveal_strlit("u64"); reveal_strlit("i16 array"); reveal_strlit(" array"); assert("u64"@ =~= dtype_name(Dtype::UnsignedInteger64)); assert("i16 array"@ =~= array_name(Dtype::SignedInteger16)); }
        ElucidatorError::new_conversion("u64", "i16 array")
    }

    fn as_vec_i32(&self) -> (r: Result<Vec<i32>, ElucidatorError>) {
        proof { reveal_strlit("u64"); reveal_strlit("i32 array"); reveal_strlit(" array"); assert("u64"@ =~= dtype_name(Dtype::UnsignedInteger64)); assert("i32 array"@ =~= array_name(Dtype::SignedInteger32)); }
        ElucidatorError::new_conversion("u64", "i32 array")
    }

    fn as_vec_i64(&self) -> (r: Result<Vec<i64>, ElucidatorError>) {
        proof { reveal_strlit("u64"); reveal_strlit("i64 array"); reveal_strlit(" array"); assert("u64"@ =~= dtype_name(Dtype::UnsignedInteger64)); assert("i64 array"@ =~= array_name(Dtype::SignedInteger64)); }
        ElucidatorError::new_conversion("u64", "i64 array")
    }
}

impl Representable for i8 {
    open spec fn value(&self) -> DataValueV {
        DataValueV::Scalar(Dtype::SignedInteger8, *self as int)
    }

    fn is_numeric(&self) -> (b: bool) {
        true
    }

    fn is_array(&self) -> (b: bool) {
        false
    }

    fn get_dtype(&self) -> (d: Dtype) {
        Dtype::SignedInteger8
    }

    fn is_signed(&self) -> (b: bool) {
        true
    }

    fn is_integer(&self) -> (b: bool) {
        true
    }

    fn is_floating(&self) -> (b: bool) {
        false
    }

    fn as_buffer(&self) -> (r: Vec<u8>) {
        proof {
            lemma_pow256_values();
        }
        let mut out: Vec<u8> = Vec::new();
        push_value(&mut out, Dtype::SignedInteger8, *self as i128);
        out
    }

    fn as_u8(&self) -> (r: Result<u8, ElucidatorError>) {
        proof { reveal_strlit("i8"); reveal_strlit("u8"); assert("i8"@ =~= dtype_name(Dtype::SignedInteger8)); assert("u8"@ =~= dtype_name(Dtype::Byte)); }
        ElucidatorError::new_narrowing("i8", "u8")
    }

    fn as_u16(&self) -> (r: Result<u16, ElucidatorError>) {
        proof { reveal_strlit("i8"); reveal_strlit("u16"); assert("i8"@ =~= dtype_name(Dtype::SignedInteger8)); assert("u16"@ =~= dtype_name(Dtype::UnsignedInteger16)); }
        ElucidatorError::new_narrowing("i8", "u16")
    }

    fn as_u32(&self) -> (r: Result<u32, ElucidatorError>) {
        proof { reveal_strlit("i8"); reveal_strlit("u32"); assert("i8"@ =~= dtype_name(Dtype::SignedInteger8)); assert("u32"@ =~= dtype_name(Dtype::UnsignedInteger32)); }
        ElucidatorError::new_narrowing("i8", "u32")
    }

    fn as_u64(&self) -> (r: Result<u64, ElucidatorError>) {
        proof { reveal_strlit("i8"); reveal_strlit("u64"); assert("i8"@ =~= dtype_name(Dtype::SignedInteger8)); assert("u64"@ =~= dtype_name(Dtype::UnsignedInteger64)); }
        ElucidatorError::new_narrowing("i8", "u64")
    }

    fn as_i8(&self) -> (r: Result<i8, ElucidatorError>) {
        Ok(*self as i8)
    }

    fn as_i16(&self) -> (r: Result<i16, ElucidatorError>) {
        Ok(*self as i16)
    }

    fn as_i32(&self) -> (r: Result<i32, ElucidatorError>) {
        Ok(*self as i32)
    }

    fn as_i64(&self) -> (r: Result<i64, ElucidatorError>) {
        Ok(*self as i64)
    }

    fn as_string(&self) -> (r: Result<String, ElucidatorError>) {
        proof { reveal_strlit("i8"); reveal_strlit("string"); assert("i8"@ =~= dtype_name(Dtype::SignedInteger8)); }
        ElucidatorError::new_conversion("i8", "string")
    }

    fn as_vec_u8(&self) -> (r: Result<Vec<u8>, ElucidatorError>) {
        proof { reveal_strlit("i8"); reveal_strlit("u8 array"); reveal_strlit(" array"); assert("i8"@ =~= dtype_name(Dtype::SignedInteger8)); assert("u8 array"@ =~= array_name(Dtype::Byte)); }
        ElucidatorError::new_conversion("i8", "u8 array")
    }

    fn as_vec_u16(&self) -> (r: Result<Vec<u16>, ElucidatorError>) {
        proof { reveal_strlit("i8"); reveal_strlit("u16 array"); reveal_strlit(" array"); assert("i8"@ =~= dtype_name(Dtype::SignedInteger8)); assert("u16 array"@ =~= array_name(Dtype::UnsignedInteger16)); }
        ElucidatorError::new_conversion("i8", "u16 array")
    }

    fn as_vec_u32(&self) -> (r: Result<Vec<u32>, ElucidatorError>) {
        proof { reveal_strlit("i8"); reveal_strlit("u32 array"); reveal_strlit(" array"); assert("i8"@ =~= dtype_name(Dtype::SignedInteger8)); assert("u32 array"@ =~= array_name(Dtype::UnsignedInteger32)); }
        ElucidatorError::new_conversion("i8", "u32 array")
    }

    fn as_vec_u64(&self) -> (r: Result<Vec<u64>, ElucidatorError>) {
        proof { reveal_strlit("i8"); reveal_strlit("u64 array"); reveal_strlit(" array"); assert("i8"@ =~= dtype_name(Dtype::SignedInteger8)); assert("u64 array"@ =~= array_name(Dtype::UnsignedInteger64)); }
        ElucidatorError::new_conversion("i8", "u64 array")
    }

    fn as_vec_i8(&self) -> (r: Result<Vec<i8>, ElucidatorError>) {
        proof { reveal_strlit("i8"); reveal_strlit("i8 array"); reveal_strlit(" array"); assert("i8"@ =~= dtype_name(Dtype::SignedInteger8)); assert("i8 array"@ =~= array_name(Dtype::SignedInteger8)); }
        ElucidatorError::new_conversion("i8", "i8 array")
    }

    fn as_vec_i16(&self) -> (r: Result<Vec<i16>, ElucidatorError>) {
        proof { reveal_strlit("i8"); reveal_strlit("i16 array"); reveal_strlit(" array"); assert("i8"@ =~= dtype_name(Dtype::SignedInteger8)); assert("i16 array"@ =~= array_name(Dtype::SignedInteger16)); }
        ElucidatorError::new_conversion("i8", "i16 array")
    }

    fn as_vec_i32(&self) -> (r: Result<Vec<i32>, ElucidatorError>) {
        proof { reveal_strlit("i8"); reveal_strlit("i32 array"); reveal_strlit(" array"); assert("i8"@ =~= dtype_name(Dtype::SignedInteger8)); assert("i32 array"@ =~= array_name(Dtype::SignedInteger32)); }
        ElucidatorError::new_conversion("i8", "i32 array")
    }

    fn as_vec_i64(&self) -> (r: Result<Vec<i64>, ElucidatorError>) {
        proof { reveal_strlit("i8"); reveal_strlit("i64 array"); reveal_strlit(" array"); assert("i8"@ =~= dtype_name(Dtype::SignedInteger8)); assert("i64 array"@ =~= array_name(Dtype::SignedInteger64)); }
        ElucidatorError::new_conversion("i8", "i64 array")
    }
}

impl Representable for i16 {
    open spec fn value(&self) -> DataValueV {
        DataValueV::Scalar(Dtype::SignedInteger16, *self as int)
    }

    fn is_numeric(&self) -> (b: bool) {
        true
    }

    fn is_array(&self) -> (b: bool) {
        false
    }

    fn get_dtype(&self) -> (d: Dtype) {
        Dtype::SignedInteger16
    }

    fn is_signed(&self) -> (b: bool) {
        true
    }

    fn is_integer(&self) -> (b: bool) {
        true
    }

    fn is_floating(&self) -> (b: bool) {
        false
    }

    fn as_buffer(&self) -> (r: Vec<u8>) {
        proof {
            lemma_pow256_values();
        }
        let mut out: Vec<u8> = Vec::new();
        push_value(&mut out, Dtype::SignedInteger16, *self as i128);
        out
    }

    fn as_u8(&self) -> (r: Result<u8, ElucidatorError>) {
        proof { reveal_strlit("i16"); reveal_strlit("u8"); assert("i16"@ =~= dtype_name(Dtype::SignedInteger16)); assert("u8"@ =~= dtype_name(Dtype::Byte)); }
        ElucidatorError::new_narrowing("i16", "u8")
    }

    fn as_u16(&self) -> (r: Result<u16, ElucidatorError>) {
        proof { reveal_strlit("i16"); reveal_strlit("u16"); assert("i16"@ =~= dtype_name(Dtype::SignedInteger16)); assert("u16"@ =~= dtype_name(Dtype::UnsignedInteger16)); }
        ElucidatorError::new_narrowing("i16", "u16")
    }

    fn as_u32(&self) -> (r: Result<u32, ElucidatorError>) {
        proof { reveal_strlit("i16"); reveal_strlit("u32"); assert("i16"@ =~= dtype_name(Dtype::SignedInteger16)); assert("u32"@ =~= dtype_name(Dtype::UnsignedInteger32)); }
        ElucidatorError::new_narrowing("i16", "u32")
    }

    fn as_u64(&self) -> (r: Result<u64, ElucidatorError>) {
        proof { reveal_strlit("i16"); reveal_strlit("u64"); assert("i16"@ =~= dtype_name(Dtype::SignedInteger16)); assert("u64"@ =~= dtype_name(Dtype::UnsignedInteger64)); }
        ElucidatorError::new_narrowing("i16", "u64")
    }

    fn as_i8(&self) -> (r: Result<i8, ElucidatorError>) {
        proof { reveal_strlit("i16"); reveal_strlit("i8"); assert("i16"@ =~= dtype_name(Dtype::SignedInteger16)); assert("i8"@ =~= dtype_name(Dtype::SignedInteger8)); }
        ElucidatorError::new_narrowing("i16", "i8")
    }

    fn as_i16(&self) -> (r: Result<i16, ElucidatorError>) {
        Ok(*self as i16)
    }

    fn as_i32(&self) -> (r: Result<i32, ElucidatorError>) {
        Ok(*self as i32)
    }

    fn as_i64(&self) -> (r: Result<i64, ElucidatorError>) {
        Ok(*self as i64)
    }

    fn as_string(&self) -> (r: Result<String, ElucidatorError>) {
        proof { reveal_strlit("i16"); reveal_strlit("string"); assert("i16"@ =~= dtype_name(Dtype::SignedInteger16)); }
        ElucidatorError::new_conversion("i16", "string")
    }

    fn as_vec_u8(&self) -> (r: Result<Vec<u8>, ElucidatorError>) {
        proof { reveal_strlit("i16"); reveal_strlit("u8 array"); reveal_strlit(" array"); assert("i16"@ =~= dtype_name(Dtype::SignedInteger16)); assert("u8 array"@ =~= array_name(Dtype::Byte)); }
        ElucidatorError::new_conversion("i16", "u8 array")
    }

    fn as_vec_u16(&self) -> (r: Result<Vec<u16>, ElucidatorError>) {
        proof { reveal_strlit("i16"); reveal_strlit("u16 array"); reveal_strlit(" array"); assert("i16"@ =~= dtype_name(Dtype::SignedInteger16)); assert("u16 array"@ =~= array_name(Dtype::UnsignedInteger16)); }
        ElucidatorError::new_conversion("i16", "u16 array")
    }

    fn as_vec_u32(&self) -> (r: Result<Vec<u32>, ElucidatorError>) {
        proof { reveal_strlit("i16"); reveal_strlit("u32 array"); reveal_strlit(" array"); assert("i16"@ =~= dtype_name(Dtype::SignedInteger16)); assert("u32 array"@ =~= array_name(Dtype::UnsignedInteger32)); }
        ElucidatorError::new_conversion("i16", "u32 array")
    }

    fn as_vec_u64(&self) -> (r: Result<Vec<u64>, ElucidatorError>) {
        proof { reveal_strlit("i16"); reveal_strlit("u64 array"); reveal_strlit(" array"); assert("i16"@ =~= dtype_name(Dtype::SignedInteger16)); assert("u64 array"@ =~= array_name(Dtype::UnsignedInteger64)); }
        ElucidatorError::new_conversion("i16", "u64 array")
    }

    fn as_vec_i8(&self) -> (r: Result<Vec<i8>, ElucidatorError>) {
        proof { reveal_strlit("i16"); reveal_strlit("i8 array"); reveal_strlit(" array"); assert("i16"@ =~= dtype_name(Dtype::SignedInteger16)); assert("i8 array"@ =~= array_name(Dtype::SignedInteger8)); }
        ElucidatorError::new_conversion("i16", "i8 array")
    }

    fn as_vec_i16(&self) -> (r: Result<Vec<i16>, ElucidatorError>) {
        proof { reveal_strlit("i16"); reveal_strlit("i16 array"); reveal_strlit(" array"); assert("i16"@ =~= dtype_name(Dtype::SignedInteger16)); assert("i16 array"@ =~= array_name(Dtype::SignedInteger16)); }
        ElucidatorError::new_conversion("i16", "i16 array")
    }

    fn as_vec_i32(&self) -> (r: Result<Vec<i32>, ElucidatorError>) {
        proof { reveal_strlit("i16"); reveal_strlit("i32 array"); reveal_strlit(" array"); assert("i16"@ =~= dtype_name(Dtype::SignedInteger16)); assert("i32 array"@ =~= array_name(Dtype::SignedInteger32)); }
        ElucidatorError::new_conversion("i16", "i32 array")
    }

    fn as_vec_i64(&self) -> (r: Result<Vec<i64>, ElucidatorError>) {
        proof { reveal_strlit("i16"); reveal_strlit("i64 array"); reveal_strlit(" array"); assert("i16"@ =~= dtype_name(Dtype::SignedInteger16)); assert("i64 array"@ =~= array_name(Dtype::SignedInteger64)); }
        ElucidatorError::new_conversion("i16", "i64 array")
    }
}

impl Representable for i32 {
    open spec fn value(&self) -> DataValueV {
        DataValueV::Scalar(Dtype::SignedInteger32, *self as int)
    }

    fn is_numeric(&self) -> (b: bool) {
        true
    }

    fn is_array(&self) -> (b: bool) {
        false
    }

    fn get_dtype(&self) -> (d: Dtype) {
        Dtype::SignedInteger32
    }

    fn is_signed(&self) -> (b: bool) {
        true
    }

    fn is_integer(&self) -> (b: bool) {
        true
    }

    fn is_floating(&self) -> (b: bool) {
        false
    }

    fn as_buffer(&self) -> (r: Vec<u8>) {
        proof {
            lemma_pow256_values();
        }
        let mut out: Vec<u8> = Vec::new();
        push_value(&mut out, Dtype::SignedInteger32, *self as i128);
        out
    }

    fn as_u8(&self) -> (r: Result<u8, ElucidatorError>) {
        proof { reveal_strlit("i32"); reveal_strlit("u8"); assert("i32"@ =~= dtype_name(Dtype::SignedInteger32)); assert("u8"@ =~= dtype_name(Dtype::Byte)); }
        ElucidatorError::new_narrowing("i32", "u8")
    }

    fn as_u16(&self) -> (r: Result<u16, ElucidatorError>) {
        proof { reveal_strlit("i32"); reveal_strlit("u16"); assert("i32"@ =~= dtype_name(Dtype::SignedInteger32)); assert("u16"@ =~= dtype_name(Dtype::UnsignedInteger16)); }
        ElucidatorError::new_narrowing("i32", "u16")
    }

    fn as_u32(&self) -> (r: Result<u32, ElucidatorError>) {
        proof { reveal_strlit("i32"); reveal_strlit("u32"); assert("i32"@ =~= dtype_name(Dtype::SignedInteger32)); assert("u32"@ =~= dtype_name(Dtype::UnsignedInteger32)); }
        ElucidatorError::new_narrowing("i32", "u32")
    }

    fn as_u64(&self) -> (r: Result<u64, ElucidatorError>) {
        proof { reveal_strlit("i32"); reveal_strlit("u64"); assert("i32"@ =~= dtype_name(Dtype::SignedInteger32)); assert("u64"@ =~= dtype_name(Dtype::UnsignedInteger64)); }
        ElucidatorError::new_narrowing("i32", "u64")
    }

    fn as_i8(&self) -> (r: Result<i8, ElucidatorError>) {
        proof { reveal_strlit("i32"); reveal_strlit("i8"); assert("i32"@ =~= dtype_name(Dtype::SignedInteger32)); assert("i8"@ =~= dtype_name(Dtype::SignedInteger8)); }
        ElucidatorError::new_narrowing("i32", "i8")
    }

    fn as_i16(&self) -> (r: Result<i16, ElucidatorError>) {
        proof { reveal_strlit("i32"); reveal_strlit("i16"); assert("i32"@ =~= dtype_name(Dtype::SignedInteger32)); assert("i16"@ =~= dtype_name(Dtype::SignedInteger16)); }
        ElucidatorError::new_narrowing("i32", "i16")
    }

    fn as_i32(&self) -> (r: Result<i32, ElucidatorError>) {
        Ok(*self as i32)
    }

    fn as_i64(&self) -> (r: Result<i64, ElucidatorError>) {
        Ok(*self as i64)
    }

    fn as_string(&self) -> (r: Result<String, ElucidatorError>) {
        proof { reveal_strlit("i32"); reveal_strlit("string"); assert("i32"@ =~= dtype_name(Dtype::SignedInteger32)); }
        ElucidatorError::new_conversion("i32", "string")
    }

    fn as_vec_u8(&self) -> (r: Result<Vec<u8>, ElucidatorError>) {
        proof { reveal_strlit("i32"); reveal_strlit("u8 array"); reveal_strlit(" array"); assert("i32"@ =~= dtype_name(Dtype::SignedInteger32)); assert("u8 array"@ =~= array_name(Dtype::Byte)); }
        ElucidatorError::new_conversion("i32", "u8 array")
    }

    fn as_vec_u16(&self) -> (r: Result<Vec<u16>, ElucidatorError>) {
        proof { reveal_strlit("i32"); reveal_strlit("u16 array"); reveal_strlit(" array"); assert("i32"@ =~= dtype_name(Dtype::SignedInteger32)); assert("u16 array"@ =~= array_name(Dtype::UnsignedInteger16)); }
        ElucidatorError::new_conversion("i32", "u16 array")
    }

    fn as_vec_u32(&self) -> (r: Result<Vec<u32>, ElucidatorError>) {
        proof { reveal_strlit("i32"); reveal_strlit("u32 array"); reveal_strlit(" array"); assert("i32"@ =~= dtype_name(Dtype::SignedInteger32)); assert("u32 array"@ =~= array_name(Dtype::UnsignedInteger32)); }
        ElucidatorError::new_conversion("i32", "u32 array")
    }

    fn as_vec_u64(&self) -> (r: Result<Vec<u64>, ElucidatorError>) {
        proof { reveal_strlit("i32"); reveal_strlit("u64 array"); reveal_strlit(" array"); assert("i32"@ =~= dtype_name(Dtype::SignedInteger32)); assert("u64 array"@ =~= array_name(Dtype::UnsignedInteger64)); }
        ElucidatorError::new_conversion("i32", "u64 array")
    }

    fn as_vec_i8(&self) -> (r: Result<Vec<i8>, ElucidatorError>) {
        proof { reveal_strlit("i32"); reveal_strlit("i8 array"); reveal_strlit(" array"); assert("i32"@ =~= dtype_name(Dtype::SignedInteger32)); assert("i8 array"@ =~= array_name(Dtype::SignedInteger8)); }
        ElucidatorError::new_conversion("i32", "i8 array")
    }

    fn as_vec_i16(&self) -> (r: Result<Vec<i16>, ElucidatorError>) {
        proof { reveal_strlit("i32"); reveal_strlit("i16 array"); reveal_strlit(" array"); assert("i32"@ =~= dtype_name(Dtype::SignedInteger32)); assert("i16 array"@ =~= array_name(Dtype::SignedInteger16)); }
        ElucidatorError::new_conversion("i32", "i16 array")
    }

    fn as_vec_i32(&self) -> (r: Result<Vec<i32>, ElucidatorError>) {
        proof { reveal_strlit("i32"); reveal_strlit("i32 array"); reveal_strlit(" array"); assert("i32"@ =~= dtype_name(Dtype::SignedInteger32)); assert("i32 array"@ =~= array_name(Dtype::SignedInteger32)); }
        ElucidatorError::new_conversion("i32", "i32 array")
    }

    fn as_vec_i64(&self) -> (r: Result<Vec<i64>, ElucidatorError>) {
        proof { reveal_strlit("i32"); reveal_strlit("i64 array"); reveal_strlit(" array"); assert("i32"@ =~= dtype_name(Dtype::SignedInteger32)); assert("i64 array"@ =~= array_name(Dtype::SignedInteger64)); }
        ElucidatorError::new_conversion("i32", "i64 array")
    }
}

impl Representable for i64 {
    open spec fn value(&self) -> DataValueV {
        DataValueV::Scalar(Dtype::SignedInteger64, *self as int)
    }

    fn is_numeric(&self) -> (b: bool) {
        true
    }

    fn is_array(&self) -> (b: bool) {
        false
    }

    fn get_dtype(&self) -> (d: Dtype) {
        Dtype::SignedInteger64
    }

    fn is_signed(&self) -> (b: bool) {
        true
    }

    fn is_integer(&self) -> (b: bool) {
        true
    }

    fn is_floating(&self) -> (b: bool) {
        false
    }

    fn as_buffer(&self) -> (r: Vec<u8>) {
        proof {
            lemma_pow256_values();
        }
        let mut out: Vec<u8> = Vec::new();
        push_value(&mut out, Dtype::SignedInteger64, *self as i128);
        out
    }

    fn as_u8(&self) -> (r: Result<u8, ElucidatorError>) {
        proof { reveal_strlit("i64"); reveal_strlit("u8"); assert("i64"@ =~= dtype_name(Dtype::SignedInteger64)); assert("u8"@ =~= dtype_name(Dtype::Byte)); }
        ElucidatorError::new_narrowing("i64", "u8")
    }

    fn as_u16(&self) -> (r: Result<u16, ElucidatorError>) {
        proof { reveal_strlit("i64"); reveal_strlit("u16"); assert("i64"@ =~= dtype_name(Dtype::SignedInteger64)); assert("u16"@ =~= dtype_name(Dtype::UnsignedInteger16)); }
        ElucidatorError::new_narrowing("i64", "u16")
    }

    fn as_u32(&self) -> (r: Result<u32, ElucidatorError>) {
        proof { reveal_strlit("i64"); reveal_strlit("u32"); assert("i64"@ =~= dtype_name(Dtype::SignedInteger64)); assert("u32"@ =~= dtype_name(Dtype::UnsignedInteger32)); }
        ElucidatorError::new_narrowing("i64", "u32")
    }

    fn as_u64(&self) -> (r: Result<u64, ElucidatorError>) {
        proof { reveal_strlit("i64"); reveal_strlit("u64"); assert("i64"@ =~= dtype_name(Dtype::SignedInteger64)); assert("u64"@ =~= dtype_name(Dtype::UnsignedInteger64)); }
        ElucidatorError::new_narrowing("i64", "u64")
    }

    fn as_i8(&self) -> (r: Result<i8, ElucidatorError>) {
        proof { reveal_strlit("i64"); reveal_strlit("i8"); assert("i64"@ =~= dtype_name(Dtype::SignedInteger64)); assert("i8"@ =~= dtype_name(Dtype::SignedInteger8)); }
        ElucidatorError::new_narrowing("i64", "i8")
    }

    fn as_i16(&self) -> (r: Result<i16, ElucidatorError>) {
        proof { reveal_strlit("i64"); reveal_strlit("i16"); assert("i64"@ =~= dtype_name(Dtype::SignedInteger64)); assert("i16"@ =~= dtype_name(Dtype::SignedInteger16)); }
        ElucidatorError::new_narrowing("i64", "i16")
    }

    fn as_i32(&self) -> (r: Result<i32, ElucidatorError>) {
        proof { reveal_strlit("i64"); reveal_strlit("i32"); assert("i64"@ =~= dtype_name(Dtype::SignedInteger64)); assert("i32"@ =~= dtype_name(Dtype::SignedInteger32)); }
        ElucidatorError::new_narrowing("i64", "i32")
    }

    fn as_i64(&self) -> (r: Result<i64, ElucidatorError>) {
        Ok(*self as i64)
    }

    fn as_string(&self) -> (r: Result<String, ElucidatorError>) {
        proof { reveal_strlit("i64"); reveal_strlit("string"); assert("i64"@ =~= dtype_name(Dtype::SignedInteger64)); }
        ElucidatorError::new_conversion("i64", "string")
    }

    fn as_vec_u8(&self) -> (r: Result<Vec<u8>, ElucidatorError>) {
        proof { reveal_strlit("i64"); reveal_strlit("u8 array"); reveal_strlit(" array"); assert("i64"@ =~= dtype_name(Dtype::SignedInteger64)); assert("u8 array"@ =~= array_name(Dtype::Byte)); }
        ElucidatorError::new_conversion("i64", "u8 array")
    }

    fn as_vec_u16(&self) -> (r: Result<Vec<u16>, ElucidatorError>) {
        proof { reveal_strlit("i64"); reveal_strlit("u16 array"); reveal_strlit(" array"); assert("i64"@ =~= dtype_name(Dtype::SignedInteger64)); assert("u16 array"@ =~= array_name(Dtype::UnsignedInteger16)); }
        ElucidatorError::new_conversion("i64", "u16 array")
    }

    fn as_vec_u32(&self) -> (r: Result<Vec<u32>, ElucidatorError>) {
        proof { reveal_strlit("i64"); reveal_strlit("u32 array"); reveal_strlit(" array"); assert("i64"@ =~= dtype_name(Dtype::SignedInteger64)); assert("u32 array"@ =~= array_name(Dtype::UnsignedInteger32)); }
        ElucidatorError::new_conversion("i64", "u32 array")
    }

    fn as_vec_u64(&self) -> (r: Result<Vec<u64>, ElucidatorError>) {
        proof { reveal_strlit("i64"); reveal_strlit("u64 array"); reveal_strlit(" array"); assert("i64"@ =~= dtype_name(Dtype::SignedInteger64)); assert("u64 array"@ =~= array_name(Dtype::UnsignedInteger64)); }
        ElucidatorError::new_conversion("i64", "u64 array")
    }

    fn as_vec_i8(&self) -> (r: Result<Vec<i8>, ElucidatorError>) {
        proof { reveal_strlit("i64"); reveal_strlit("i8 array"); reveal_strlit(" array"); assert("i64"@ =~= dtype_name(Dtype::SignedInteger64)); assert("i8 array"@ =~= array_name(Dtype::SignedInteger8)); }
        ElucidatorError::new_conversion("i64", "i8 array")
    }

    fn as_vec_i16(&self) -> (r: Result<Vec<i16>, ElucidatorError>) {
        proof { reveal_strlit("i64"); reveal_strlit("i16 array"); reveal_strlit(" array"); assert("i64"@ =~= dtype_name(Dtype::SignedInteger64)); assert("i16 array"@ =~= array_name(Dtype::SignedInteger16)); }
        ElucidatorError::new_conversion("i64", "i16 array")
    }

    fn as_vec_i32(&self) -> (r: Result<Vec<i32>, ElucidatorError>) {
        proof { reveal_strlit("i64"); reveal_strlit("i32 array"); reveal_strlit(" array"); assert("i64"@ =~= dtype_name(Dtype::SignedInteger64)); assert("i32 array"@ =~= array_name(Dtype::SignedInteger32)); }
        ElucidatorError::new_conversion("i64", "i32 array")
    }

    fn as_vec_i64(&self) -> (r: Result<Vec<i64>, ElucidatorError>) {
        proof { reveal_strlit("i64"); reveal_strlit("i64 array"); reveal_strlit(" array"); assert("i64"@ =~= dtype_name(Dtype::SignedInteger64)); assert("i64 array"@ =~= array_name(Dtype::SignedInteger64)); }
        ElucidatorError::new_conversion("i64", "i64 array")
    }
}

impl Representable for Vec<u8> {
    open spec fn value(&self) -> DataValueV {
        DataValueV::Array(Dtype::Byte, self@.map_values(|x: u8| x as int))
    }

    fn is_numeric(&self) -> (b: bool) {
        true
    }

    fn is_array(&self) -> (b: bool) {
        true
    }

    fn get_dtype(&self) -> (d: Dtype) {
        Dtype::Byte
    }

    fn is_signed(&self) -> (b: bool) {
        false
    }

    fn is_integer(&self) -> (b: bool) {
        true
    }

    fn is_floating(&self) -> (b: bool) {
        false
    }

    fn as_buffer(&self) -> (r: Vec<u8>) {
        let w = widen_u8(self);
        proof {
            lemma_pow256_values();
            assert forall|i: int| 0 <= i < w@.len() implies crate::value::in_range(Dtype::Byte, #[trigger] w@[i] as int) by {
                assert(w@[i] as int == self@[i] as int);
            }
        }
        array_bytes(Dtype::Byte, &w)
    }

    fn as_u8(&self) -> (r: Result<u8, ElucidatorError>) {
        proof { reveal_strlit("u8 array"); reveal_strlit("u8"); reveal_strlit(" array"); assert("u8 array"@ =~= array_name(Dtype::Byte)); assert("u8"@ =~= dtype_name(Dtype::Byte)); }
        ElucidatorError::new_conversion("u8 array", "u8")
    }

    fn as_u16(&self) -> (r: Result<u16, ElucidatorError>) {
        proof { reveal_strlit("u8 array"); reveal_strlit("u16"); reveal_strlit(" array"); assert("u8 array"@ =~= array_name(Dtype::Byte)); assert("u16"@ =~= dtype_name(Dtype::UnsignedInteger16)); }
        ElucidatorError::new_conversion("u8 array", "u16")
    }

    fn as_u32(&self) -> (r: Result<u32, ElucidatorError>) {
        proof { reveal_strlit("u8 array"); reveal_strlit("u32"); reveal_strlit(" array"); assert("u8 array"@ =~= array_name(Dtype::Byte)); assert("u32"@ =~= dtype_name(Dtype::UnsignedInteger32)); }
        ElucidatorError::new_conversion("u8 array", "u32")
    }

    fn as_u64(&self) -> (r: Result<u64, ElucidatorError>) {
        proof { reveal_strlit("u8 array"); reveal_strlit("u64"); reveal_strlit(" array"); assert("u8 array"@ =~= array_name(Dtype::Byte)); assert("u64"@ =~= dtype_name(Dtype::UnsignedInteger64)); }
        ElucidatorError::new_conversion("u8 array", "u64")
    }

    fn as_i8(&self) -> (r: Result<i8, ElucidatorError>) {
        proof { reveal_strlit("u8 array"); reveal_strlit("i8"); reveal_strlit(" array"); assert("u8 array"@ =~= array_name(Dtype::Byte)); assert("i8"@ =~= dtype_name(Dtype::SignedInteger8)); }
        ElucidatorError::new_conversion("u8 array", "i8")
    }

    fn as_i16(&self) -> (r: Result<i16, ElucidatorError>) {
        proof { reveal_strlit("u8 array"); reveal_strlit("i16"); reveal_strlit(" array"); assert("u8 array"@ =~= array_name(Dtype::Byte)); assert("i16"@ =~= dtype_name(Dtype::SignedInteger16)); }
        ElucidatorError::new_conversion("u8 array", "i16")
    }

    fn as_i32(&self) -> (r: Result<i32, ElucidatorError>) {
        proof { reveal_strlit("u8 array"); reveal_strlit("i32"); reveal_strlit(" array"); assert("u8 array"@ =~= array_name(Dtype::Byte)); assert("i32"@ =~= dtype_name(Dtype::SignedInteger32)); }
        ElucidatorError::new_conversion("u8 array", "i32")
    }

    fn as_i64(&self) -> (r: Result<i64, ElucidatorError>) {
        proof { reveal_strlit("u8 array"); reveal_strlit("i64"); reveal_strlit(" array"); assert("u8 array"@ =~= array_name(Dtype::Byte)); assert("i64"@ =~= dtype_name(Dtype::SignedInteger64)); }
        ElucidatorError::new_conversion("u8 array", "i64")
    }

    fn as_string(&self) -> (r: Result<String, ElucidatorError>) {
        proof { reveal_strlit("u8 array"); reveal_strlit("string"); reveal_strlit(" array"); assert("u8 array"@ =~= array_name(Dtype::Byte)); }
        ElucidatorError::new_conversion("u8 array", "string")
    }

    fn as_vec_u8(&self) -> (r: Result<Vec<u8>, ElucidatorError>) {
        let w = widen_u8(self);
        proof {
            assert forall|k: int| 0 <= k < w@.len() implies {
                let y = #[trigger] w@[k];
                u8::MIN <= y <= u8::MAX
            } by {
                assert(w@[k] as int == self@[k] as int);
            }
        }
        let r = narrow_u8(&w);
        Ok(r)
    }

    fn as_vec_u16(&self) -> (r: Result<Vec<u16>, ElucidatorError>) {
        let w = widen_u8(self);
        proof {
            assert forall|k: int| 0 <= k < w@.len() implies {
                let y = #[trigger] w@[k];
                u16::MIN <= y <= u16::MAX
            } by {
                assert(w@[k] as int == self@[k] as int);
            }
        }
        let r = narrow_u16(&w);
        Ok(r)
    }

    fn as_vec_u32(&self) -> (r: Result<Vec<u32>, ElucidatorError>) {
        let w = widen_u8(self);
        proof {
            assert forall|k: int| 0 <= k < w@.len() implies {
                let y = #[trigger] w@[k];
                u32::MIN <= y <= u32::MAX
            } by {
                assert(w@[k] as int == self@[k] as int);
            }
        }
        let r = narrow_u32(&w);
        Ok(r)
    }

    fn as_vec_u64(&self) -> (r: Result<Vec<u64>, ElucidatorError>) {
        let w = widen_u8(self);
        proof {
            assert forall|k: int| 0 <= k < w@.len() implies {
                let y = #[trigger] w@[k];
                u64::MIN <= y <= u64::MAX
            } by {
                assert(w@[k] as int == self@[k] as int);
            }
        }
        let r = narrow_u64(&w);
        Ok(r)
    }

    fn as_vec_i8(&self) -> (r: Result<Vec<i8>, ElucidatorError>) {
        proof { reveal_strlit("u8 array"); reveal_strlit("i8 array"); reveal_strlit(" array"); assert("u8 array"@ =~= array_name(Dtype::Byte)); assert("i8 array"@ =~= array_name(Dtype::SignedInteger8)); }
        ElucidatorError::new_narrowing("u8 array", "i8 array")
    }

    fn as_vec_i16(&self) -> (r: Result<Vec<i16>, ElucidatorError>) {
        let w = widen_u8(self);
        proof {
            assert forall|k: int| 0 <= k < w@.len() implies {
                let y = #[trigger] w@[k];
                i16::MIN <= y <= i16::MAX
            } by {
                assert(w@[k] as int == self@[k] as int);
            }
        }
        let r = narrow_i16(&w);
        Ok(r)
    }

    fn as_vec_i32(&self) -> (r: Result<Vec<i32>, ElucidatorError>) {
        let w = widen_u8(self);
        proof {
            assert forall|k: int| 0 <= k < w@.len() implies {
                let y = #[trigger] w@[k];
                i32::MIN <= y <= i32::MAX
            } by {
                assert(w@[k] as int == self@[k] as int);
            }
        }
        let r = narrow_i32(&w);
        Ok(r)
    }

    fn as_vec_i64(&self) -> (r: Result<Vec<i64>, ElucidatorError>) {
        let w = widen_u8(self);
        proof {
            assert forall|k: int| 0 <= k < w@.len() implies {
                let y = #[trigger] w@[k];
                i64::MIN <= y <= i64::MAX
            } by {
                assert(w@[k] as int == self@[k] as int);
            }
        }
        let r = narrow_i64(&w);
        Ok(r)
    }
}

impl Representable for Vec<u16> {
    open spec fn value(&self) -> DataValueV {
        DataValueV::Array(Dtype::UnsignedInteger16, self@.map_values(|x: u16| x as int))
    }

    fn is_numeric(&self) -> (b: bool) {
        true
    }

    fn is_array(&self) -> (b: bool) {
        true
    }

    fn get_dtype(&self) -> (d: Dtype) {
        Dtype::UnsignedInteger16
    }

    fn is_signed(&self) -> (b: bool) {
        false
    }

    fn is_integer(&self) -> (b: bool) {
        true
    }

    fn is_floating(&self) -> (b: bool) {
        false
    }

    fn as_buffer(&self) -> (r: Vec<u8>) {
        let w = widen_u16(self);
        proof {
            lemma_pow256_values();
            assert forall|i: int| 0 <= i < w@.len() implies crate::value::in_range(Dtype::UnsignedInteger16, #[trigger] w@[i] as int) by {
                assert(w@[i] as int == self@[i] as int);
            }
        }
        array_bytes(Dtype::UnsignedInteger16, &w)
    }

    fn as_u8(&self) -> (r: Result<u8, ElucidatorError>) {
        proof { reveal_strlit("u16 array"); reveal_strlit("u8"); reveal_strlit(" array"); assert("u16 array"@ =~= array_name(Dtype::UnsignedInteger16)); assert("u8"@ =~= dtype_name(Dtype::Byte)); }
        ElucidatorError::new_conversion("u16 array", "u8")
    }

    fn as_u16(&self) -> (r: Result<u16, ElucidatorError>) {
        proof { reveal_strlit("u16 array"); reveal_strlit("u16"); reveal_strlit(" array"); assert("u16 array"@ =~= array_name(Dtype::UnsignedInteger16)); assert("u16"@ =~= dtype_name(Dtype::UnsignedInteger16)); }
        ElucidatorError::new_conversion("u16 array", "u16")
    }

    fn as_u32(&self) -> (r: Result<u32, ElucidatorError>) {
        proof { reveal_strlit("u16 array"); reveal_strlit("u32"); reveal_strlit(" array"); assert("u16 array"@ =~= array_name(Dtype::UnsignedInteger16)); assert("u32"@ =~= dtype_name(Dtype::UnsignedInteger32)); }
        ElucidatorError::new_conversion("u16 array", "u32")
    }

    fn as_u64(&self) -> (r: Result<u64, ElucidatorError>) {
        proof { reveal_strlit("u16 array"); reveal_strlit("u64"); reveal_strlit(" array"); assert("u16 array"@ =~= array_name(Dtype::UnsignedInteger16)); assert("u64"@ =~= dtype_name(Dtype::UnsignedInteger64)); }
        ElucidatorError::new_conversion("u16 array", "u64")
    }

    fn as_i8(&self) -> (r: Result<i8, ElucidatorError>) {
        proof { reveal_strlit("u16 array"); reveal_strlit("i8"); reveal_strlit(" array"); assert("u16 array"@ =~= array_name(Dtype::UnsignedInteger16)); assert("i8"@ =~= dtype_name(Dtype::SignedInteger8)); }
        ElucidatorError::new_conversion("u16 array", "i8")
    }

    fn as_i16(&self) -> (r: Result<i16, ElucidatorError>) {
        proof { reveal_strlit("u16 array"); reveal_strlit("i16"); reveal_strlit(" array"); assert("u16 array"@ =~= array_name(Dtype::UnsignedInteger16)); assert("i16"@ =~= dtype_name(Dtype::SignedInteger16)); }
        ElucidatorError::new_conversion("u16 array", "i16")
    }

    fn as_i32(&self) -> (r: Result<i32, ElucidatorError>) {
        proof { reveal_strlit("u16 array"); reveal_strlit("i32"); reveal_strlit(" array"); assert("u16 array"@ =~= array_name(Dtype::UnsignedInteger16)); assert("i32"@ =~= dtype_name(Dtype::SignedInteger32)); }
        ElucidatorError::new_conversion("u16 array", "i32")
    }

    fn as_i64(&self) -> (r: Result<i64, ElucidatorError>) {
        proof { reveal_strlit("u16 array"); reveal_strlit("i64"); reveal_strlit(" array"); assert("u16 array"@ =~= array_name(Dtype::UnsignedInteger16)); assert("i64"@ =~= dtype_name(Dtype::SignedInteger64)); }
        ElucidatorError::new_conversion("u16 array", "i64")
    }

    fn as_string(&self) -> (r: Result<String, ElucidatorError>) {
        proof { reveal_strlit("u16 array"); reveal_strlit("string"); reveal_strlit(" array"); assert("u16 array"@ =~= array_name(Dtype::UnsignedInteger16)); }
        ElucidatorError::new_conversion("u16 array", "string")
    }

    fn as_vec_u8(&self) -> (r: Result<Vec<u8>, ElucidatorError>) {
        proof { reveal_strlit("u16 array"); reveal_strlit("u8 array"); reveal_strlit(" array"); assert("u16 array"@ =~= array_name(Dtype::UnsignedInteger16)); assert("u8 array"@ =~= array_name(Dtype::Byte)); }
        ElucidatorError::new_narrowing("u16 array", "u8 array")
    }

    fn as_vec_u16(&self) -> (r: Result<Vec<u16>, ElucidatorError>) {
        let w = widen_u16(self);
        proof {
            assert forall|k: int| 0 <= k < w@.len() implies {
                let y = #[trigger] w@[k];
                u16::MIN <= y <= u16::MAX
            } by {
                assert(w@[k] as int == self@[k] as int);
            }
        }
        let r = narrow_u16(&w);
        Ok(r)
    }

    fn as_vec_u32(&self) -> (r: Result<Vec<u32>, ElucidatorError>) {
        let w = widen_u16(self);
        proof {
            assert forall|k: int| 0 <= k < w@.len() implies {
                let y = #[trigger] w@[k];
                u32::MIN <= y <= u32::MAX
            } by {
                assert(w@[k] as int == self@[k] as int);
            }
        }
        let r = narrow_u32(&w);
        Ok(r)
    }

    fn as_vec_u64(&self) -> (r: Result<Vec<u64>, ElucidatorError>) {
        let w = widen_u16(self);
        proof {
            assert forall|k: int| 0 <= k < w@.len() implies {
                let y = #[trigger] w@[k];
                u64::MIN <= y <= u64::MAX
            } by {
                assert(w@[k] as int == self@[k] as int);
            }
        }
        let r = narrow_u64(&w);
        Ok(r)
    }

    fn as_vec_i8(&self) -> (r: Result<Vec<i8>, ElucidatorError>) {
        proof { reveal_strlit("u16 array"); reveal_strlit("i8 array"); reveal_strlit(" array"); assert("u16 array"@ =~= array_name(Dtype::UnsignedInteger16)); assert("i8 array"@ =~= array_name(Dtype::SignedInteger8)); }
        ElucidatorError::new_narrowing("u16 array", "i8 array")
    }

    fn as_vec_i16(&self) -> (r: Result<Vec<i16>, ElucidatorError>) {
        proof { reveal_strlit("u16 array"); reveal_strlit("i16 array"); reveal_strlit(" array"); assert("u16 array"@ =~= array_name(Dtype::UnsignedInteger16)); assert("i16 array"@ =~= array_name(Dtype::SignedInteger16)); }
        ElucidatorError::new_narrowing("u16 array", "i16 array")
    }

    fn as_vec_i32(&self) -> (r: Result<Vec<i32>, ElucidatorError>) {
        let w = widen_u16(self);
        proof {
            assert forall|k: int| 0 <= k < w@.len() implies {
                let y = #[trigger] w@[k];
                i32::MIN <= y <= i32::MAX
            } by {
                assert(w@[k] as int == self@[k] as int);
            }
        }
        let r = narrow_i32(&w);
        Ok(r)
    }

    fn as_vec_i64(&self) -> (r: Result<Vec<i64>, ElucidatorError>) {
        let w = widen_u16(self);
        proof {
            assert forall|k: int| 0 <= k < w@.len() implies {
                let y = #[trigger] w@[k];
                i64::MIN <= y <= i64::MAX
            } by {
                assert(w@[k] as int == self@[k] as int);
            }
        }
        let r = narrow_i64(&w);
        Ok(r)
    }
}

impl Representable for Vec<u32> {
    open spec fn value(&self) -> DataValueV {
        DataValueV::Array(Dtype::UnsignedInteger32, self@.map_values(|x: u32| x as int))
    }

    fn is_numeric(&self) -> (b: bool) {
        true
    }

    fn is_array(&self) -> (b: bool) {
        true
    }

    fn get_dtype(&self) -> (d: Dtype) {
        Dtype::UnsignedInteger32
    }

    fn is_signed(&self) -> (b: bool) {
        false
    }

    fn is_integer(&self) -> (b: bool) {
        true
    }

    fn is_floating(&self) -> (b: bool) {
        false
    }

    fn as_buffer(&self) -> (r: Vec<u8>) {
        let w = widen_u32(self);
        proof {
            lemma_pow256_values();
            assert forall|i: int| 0 <= i < w@.len() implies crate::value::in_range(Dtype::UnsignedInteger32, #[trigger] w@[i] as int) by {
                assert(w@[i] as int == self@[i] as int);
            }
        }
        array_bytes(Dtype::UnsignedInteger32, &w)
    }

    fn as_u8(&self) -> (r: Result<u8, ElucidatorError>) {
        proof { reveal_strlit("u32 array"); reveal_strlit("u8"); reveal_strlit(" array"); assert("u32 array"@ =~= array_name(Dtype::UnsignedInteger32)); assert("u8"@ =~= dtype_name(Dtype::Byte)); }
        ElucidatorError::new_conversion("u32 array", "u8")
    }

    fn as_u16(&self) -> (r: Result<u16, ElucidatorError>) {
        proof { reveal_strlit("u32 array"); reveal_strlit("u16"); reveal_strlit(" array"); assert("u32 array"@ =~= array_name(Dtype::UnsignedInteger32)); assert("u16"@ =~= dtype_name(Dtype::UnsignedInteger16)); }
        ElucidatorError::new_conversion("u32 array", "u16")
    }

    fn as_u32(&self) -> (r: Result<u32, ElucidatorError>) {
        proof { reveal_strlit("u32 array"); reveal_strlit("u32"); reveal_strlit(" array"); assert("u32 array"@ =~= array_name(Dtype::UnsignedInteger32)); assert("u32"@ =~= dtype_name(Dtype::UnsignedInteger32)); }
        ElucidatorError::new_conversion("u32 array", "u32")
    }

    fn as_u64(&self) -> (r: Result<u64, ElucidatorError>) {
        proof { reveal_strlit("u32 array"); reveal_strlit("u64"); reveal_strlit(" array"); assert("u32 array"@ =~= array_name(Dtype::UnsignedInteger32)); assert("u64"@ =~= dtype_name(Dtype::UnsignedInteger64)); }
        ElucidatorError::new_conversion("u32 array", "u64")
    }

    fn as_i8(&self) -> (r: Result<i8, ElucidatorError>) {
        proof { reveal_strlit("u32 array"); reveal_strlit("i8"); reveal_strlit(" array"); assert("u32 array"@ =~= array_name(Dtype::UnsignedInteger32)); assert("i8"@ =~= dtype_name(Dtype::SignedInteger8)); }
        ElucidatorError::new_conversion("u32 array", "i8")
    }

    fn as_i16(&self) -> (r: Result<i16, ElucidatorError>) {
        proof { reveal_strlit("u32 array"); reveal_strlit("i16"); reveal_strlit(" array"); assert("u32 array"@ =~= array_name(Dtype::UnsignedInteger32)); assert("i16"@ =~= dtype_name(Dtype::SignedInteger16)); }
        ElucidatorError::new_conversion("u32 array", "i16")
    }

    fn as_i32(&self) -> (r: Result<i32, ElucidatorError>) {
        proof { reveal_strlit("u32 array"); reveal_strlit("i32"); reveal_strlit(" array"); assert("u32 array"@ =~= array_name(Dtype::UnsignedInteger32)); assert("i32"@ =~= dtype_name(Dtype::SignedInteger32)); }
        ElucidatorError::new_conversion("u32 array", "i32")
    }

    fn as_i64(&self) -> (r: Result<i64, ElucidatorError>) {
        proof { reveal_strlit("u32 array"); reveal_strlit("i64"); reveal_strlit(" array"); assert("u32 array"@ =~= array_name(Dtype::UnsignedInteger32)); assert("i64"@ =~= dtype_name(Dtype::SignedInteger64)); }
        ElucidatorError::new_conversion("u32 array", "i64")
    }

    fn as_string(&self) -> (r: Result<String, ElucidatorError>) {
        proof { reveal_strlit("u32 array"); reveal_strlit("string"); reveal_strlit(" array"); assert("u32 array"@ =~= array_name(Dtype::UnsignedInteger32)); }
        ElucidatorError::new_conversion("u32 array", "string")
    }

    fn as_vec_u8(&self) -> (r: Result<Vec<u8>, ElucidatorError>) {
        proof { reveal_strlit("u32 array"); reveal_strlit("u8 array"); reveal_strlit(" array"); assert("u32 array"@ =~= array_name(Dtype::UnsignedInteger32)); assert("u8 array"@ =~= array_name(Dtype::Byte)); }
        ElucidatorError::new_narrowing("u32 array", "u8 array")
    }

    fn as_vec_u16(&self) -> (r: Result<Vec<u16>, ElucidatorError>) {
        proof { reveal_strlit("u32 array"); reveal_strlit("u16 array"); reveal_strlit(" array"); assert("u32 array"@ =~= array_name(Dtype::UnsignedInteger32)); assert("u16 array"@ =~= array_name(Dtype::UnsignedInteger16)); }
        ElucidatorError::new_narrowing("u32 array", "u16 array")
    }

    fn as_vec_u32(&self) -> (r: Result<Vec<u32>, ElucidatorError>) {
        let w = widen_u32(self);
        proof {
            assert forall|k: int| 0 <= k < w@.len() implies {
                let y = #[trigger] w@[k];
                u32::MIN <= y <= u32::MAX
            } by {
                assert(w@[k] as int == self@[k] as int);
            }
        }
        let r = narrow_u32(&w);
        Ok(r)
    }

    fn as_vec_u64(&self) -> (r: Result<Vec<u64>, ElucidatorError>) {
        let w = widen_u32(self);
        proof {
            assert forall|k: int| 0 <= k < w@.len() implies {
                let y = #[trigger] w@[k];
                u64::MIN <= y <= u64::MAX
            } by {
                assert(w@[k] as int == self@[k] as int);
            }
        }
        let r = narrow_u64(&w);
        Ok(r)
    }

    fn as_vec_i8(&self) -> (r: Result<Vec<i8>, ElucidatorError>) {
        proof { reveal_strlit("u32 array"); reveal_strlit("i8 array"); reveal_strlit(" array"); assert("u32 array"@ =~= array_name(Dtype::UnsignedInteger32)); assert("i8 array"@ =~= array_name(Dtype::SignedInteger8)); }
        ElucidatorError::new_narrowing("u32 array", "i8 array")
    }

    fn as_vec_i16(&self) -> (r: Result<Vec<i16>, ElucidatorError>) {
        proof { reveal_strlit("u32 array"); reveal_strlit("i16 array"); reveal_strlit(" array"); assert("u32 array"@ =~= array_name(Dtype::UnsignedInteger32)); assert("i16 array"@ =~= array_name(Dtype::SignedInteger16)); }
        ElucidatorError::new_narrowing("u32 array", "i16 array")
    }

    fn as_vec_i32(&self) -> (r: Result<Vec<i32>, ElucidatorError>) {
        proof { reveal_strlit("u32 array"); reveal_strlit("i32 array"); reveal_strlit(" array"); assert("u32 array"@ =~= array_name(Dtype::UnsignedInteger32)); assert("i32 array"@ =~= array_name(Dtype::SignedInteger32)); }
        ElucidatorError::new_narrowing("u32 array", "i32 array")
    }

    fn as_vec_i64(&self) -> (r: Result<Vec<i64>, ElucidatorError>) {
        let w = widen_u32(self);
        proof {
            assert forall|k: int| 0 <= k < w@.len() implies {
                let y = #[trigger] w@[k];
                i64::MIN <= y <= i64::MAX
            } by {
                assert(w@[k] as int == self@[k] as int);
            }
        }
        let r = narrow_i64(&w);
        Ok(r)
    }
}

impl Representable for Vec<u64> {
    open spec fn value(&self) -> DataValueV {
        DataValueV::Array(Dtype::UnsignedInteger64, self@.map_values(|x: u64| x as int))
    }

    fn is_numeric(&self) -> (b: bool) {
        true
    }

    fn is_array(&self) -> (b: bool) {
        true
    }

    fn get_dtype(&self) -> (d: Dtype) {
        Dtype::UnsignedInteger64
    }

    fn is_signed(&self) -> (b: bool) {
        false
    }

    fn is_integer(&self) -> (b: bool) {
        true
    }

    fn is_floating(&self) -> (b: bool) {
        false
    }

    fn as_buffer(&self) -> (r: Vec<u8>) {
        let w = widen_u64(self);
        proof {
            lemma_pow256_values();
            assert forall|i: int| 0 <= i < w@.len() implies crate::value::in_range(Dtype::UnsignedInteger64, #[trigger] w@[i] as int) by {
                assert(w@[i] as int == self@[i] as int);
            }
        }
        array_bytes(Dtype::UnsignedInteger64, &w)
    }

    fn as_u8(&self) -> (r: Result<u8, ElucidatorError>) {
        proof { reveal_strlit("u64 array"); reveal_strlit("u8"); reveal_strlit(" array"); assert("u64 array"@ =~= array_name(Dtype::UnsignedInteger64)); assert("u8"@ =~= dtype_name(Dtype::Byte)); }
        ElucidatorError::new_conversion("u64 array", "u8")
    }

    fn as_u16(&self) -> (r: Result<u16, ElucidatorError>) {
        proof { reveal_strlit("u64 array"); reveal_strlit("u16"); reveal_strlit(" array"); assert("u64 array"@ =~= array_name(Dtype::UnsignedInteger64)); assert("u16"@ =~= dtype_name(Dtype::UnsignedInteger16)); }
        ElucidatorError::new_conversion("u64 array", "u16")
    }

    fn as_u32(&self) -> (r: Result<u32, ElucidatorError>) {
        proof { reveal_strlit("u64 array"); reveal_strlit("u32"); reveal_strlit(" array"); assert("u64 array"@ =~= array_name(Dtype::UnsignedInteger64)); assert("u32"@ =~= dtype_name(Dtype::UnsignedInteger32)); }
        ElucidatorError::new_conversion("u64 array", "u32")
    }

    fn as_u64(&self) -> (r: Result<u64, ElucidatorError>) {
        proof { reveal_strlit("u64 array"); reveal_strlit("u64"); reveal_strlit(" array"); assert("u64 array"@ =~= array_name(Dtype::UnsignedInteger64)); assert("u64"@ =~= dtype_name(Dtype::UnsignedInteger64)); }
        ElucidatorError::new_conversion("u64 array", "u64")
    }

    fn as_i8(&self) -> (r: Result<i8, ElucidatorError>) {
        proof { reveal_strlit("u64 array"); reveal_strlit("i8"); reveal_strlit(" array"); assert("u64 array"@ =~= array_name(Dtype::UnsignedInteger64)); assert("i8"@ =~= dtype_name(Dtype::SignedInteger8)); }
        ElucidatorError::new_conversion("u64 array", "i8")
    }

    fn as_i16(&self) -> (r: Result<i16, ElucidatorError>) {
        proof { reveal_strlit("u64 array"); reveal_strlit("i16"); reveal_strlit(" array"); assert("u64 array"@ =~= array_name(Dtype::UnsignedInteger64)); assert("i16"@ =~= dtype_name(Dtype::SignedInteger16)); }
        ElucidatorError::new_conversion("u64 array", "i16")
    }

    fn as_i32(&self) -> (r: Result<i32, ElucidatorError>) {
        proof { reveal_strlit("u64 array"); reveal_strlit("i32"); reveal_strlit(" array"); assert("u64 array"@ =~= array_name(Dtype::UnsignedInteger64)); assert("i32"@ =~= dtype_name(Dtype::SignedInteger32)); }
        ElucidatorError::new_conversion("u64 array", "i32")
    }

    fn as_i64(&self) -> (r: Result<i64, ElucidatorError>) {
        proof { reveal_strlit("u64 array"); reveal_strlit("i64"); reveal_strlit(" array"); assert("u64 array"@ =~= array_name(Dtype::UnsignedInteger64)); assert("i64"@ =~= dtype_name(Dtype::SignedInteger64)); }
        ElucidatorError::new_conversion("u64 array", "i64")
    }

    fn as_string(&self) -> (r: Result<String, ElucidatorError>) {
        proof { reveal_strlit("u64 array"); reveal_strlit("string"); reveal_strlit(" array"); assert("u64 array"@ =~= array_name(Dtype::UnsignedInteger64)); }
        ElucidatorError::new_conversion("u64 array", "string")
    }

    fn as_vec_u8(&self) -> (r: Result<Vec<u8>, ElucidatorError>) {
        proof { reveal_strlit("u64 array"); reveal_strlit("u8 array"); reveal_strlit(" array"); assert("u64 array"@ =~= array_name(Dtype::UnsignedInteger64)); assert("u8 array"@ =~= array_name(Dtype::Byte)); }
        ElucidatorError::new_narrowing("u64 array", "u8 array")
    }

    fn as_vec_u16(&self) -> (r: Result<Vec<u16>, ElucidatorError>) {
        proof { reveal_strlit("u64 array"); reveal_strlit("u16 array"); reveal_strlit(" array"); assert("u64 array"@ =~= array_name(Dtype::UnsignedInteger64)); assert("u16 array"@ =~= array_name(Dtype::UnsignedInteger16)); }
        ElucidatorError::new_narrowing("u64 array", "u16 array")
    }

    fn as_vec_u32(&self) -> (r: Result<Vec<u32>, ElucidatorError>) {
        proof { reveal_strlit("u64 array"); reveal_strlit("u32 array"); reveal_strlit(" array"); assert("u64 array"@ =~= array_name(Dtype::UnsignedInteger64)); assert("u32 array"@ =~= array_name(Dtype::UnsignedInteger32)); }
        ElucidatorError::new_narrowing("u64 array", "u32 array")
    }

    fn as_vec_u64(&self) -> (r: Result<Vec<u64>, ElucidatorError>) {
        let w = widen_u64(self);
        proof {
            assert forall|k: int| 0 <= k < w@.len() implies {
                let y = #[trigger] w@[k];
                u64::MIN <= y <= u64::MAX
            } by {
                assert(w@[k] as int == self@[k] as int);
            }
        }
        let r = narrow_u64(&w);
        Ok(r)
    }

    fn as_vec_i8(&self) -> (r: Result<Vec<i8>, ElucidatorError>) {
        proof { reveal_strlit("u64 array"); reveal_strlit("i8 array"); reveal_strlit(" array"); assert("u64 array"@ =~= array_name(Dtype::UnsignedInteger64)); assert("i8 array"@ =~= array_name(Dtype::SignedInteger8)); }
        ElucidatorError::new_narrowing("u64 array", "i8 array")
    }

    fn as_vec_i16(&self) -> (r: Result<Vec<i16>, ElucidatorError>) {
        proof { reveal_strlit("u64 array"); reveal_strlit("i16 array"); reveal_strlit(" array"); assert("u64 array"@ =~= array_name(Dtype::UnsignedInteger64)); assert("i16 array"@ =~= array_name(Dtype::SignedInteger16)); }
        ElucidatorError::new_narrowing("u64 array", "i16 array")
    }

    fn as_vec_i32(&self) -> (r: Result<Vec<i32>, ElucidatorError>) {
        proof { reveal_strlit("u64 array"); reveal_strlit("i32 array"); reveal_strlit(" array"); assert("u64 array"@ =~= array_name(Dtype::UnsignedInteger64)); assert("i32 array"@ =~= array_name(Dtype::SignedInteger32)); }
        ElucidatorError::new_narrowing("u64 array", "i32 array")
    }

    fn as_vec_i64(&self) -> (r: Result<Vec<i64>, ElucidatorError>) {
        proof { reveal_strlit("u64 array"); reveal_strlit("i64 array"); reveal_strlit(" array"); assert("u64 array"@ =~= array_name(Dtype::UnsignedInteger64)); assert("i64 array"@ =~= array_name(Dtype::SignedInteger64)); }
        ElucidatorError::new_narrowing("u64 array", "i64 array")
    }
}

impl Representable for Vec<i8> {
    open spec fn value(&self) -> DataValueV {
        DataValueV::Array(Dtype::SignedInteger8, self@.map_values(|x: i8| x as int))
    }

    fn is_numeric(&self) -> (b: bool) {
        true
    }

    fn is_array(&self) -> (b: bool) {
        true
    }

    fn get_dtype(&self) -> (d: Dtype) {
        Dtype::SignedInteger8
    }

    fn is_signed(&self) -> (b: bool) {
        true
    }

    fn is_integer(&self) -> (b: bool) {
        true
    }

    fn is_floating(&self) -> (b: bool) {
        false
    }

    fn as_buffer(&self) -> (r: Vec<u8>) {
        let w = widen_i8(self);
        proof {
            lemma_pow256_values();
            assert forall|i: int| 0 <= i < w@.len() implies crate::value::in_range(Dtype::SignedInteger8, #[trigger] w@[i] as int) by {
                assert(w@[i] as int == self@[i] as int);
            }
        }
        array_bytes(Dtype::SignedInteger8, &w)
    }

    fn as_u8(&self) -> (r: Result<u8, ElucidatorError>) {
        proof { reveal_strlit("i8 array"); reveal_strlit("u8"); reveal_strlit(" array"); assert("i8 array"@ =~= array_name(Dtype::SignedInteger8)); assert("u8"@ =~= dtype_name(Dtype::Byte)); }
        ElucidatorError::new_conversion("i8 array", "u8")
    }

    fn as_u16(&self) -> (r: Result<u16, ElucidatorError>) {
        proof { reveal_strlit("i8 array"); reveal_strlit("u16"); reveal_strlit(" array"); assert("i8 array"@ =~= array_name(Dtype::SignedInteger8)); assert("u16"@ =~= dtype_name(Dtype::UnsignedInteger16)); }
        ElucidatorError::new_conversion("i8 array", "u16")
    }

    fn as_u32(&self) -> (r: Result<u32, ElucidatorError>) {
        proof { reveal_strlit("i8 array"); reveal_strlit("u32"); reveal_strlit(" array"); assert("i8 array"@ =~= array_name(Dtype::SignedInteger8)); assert("u32"@ =~= dtype_name(Dtype::UnsignedInteger32)); }
        ElucidatorError::new_conversion("i8 array", "u32")
    }

    fn as_u64(&self) -> (r: Result<u64, ElucidatorError>) {
        proof { reveal_strlit("i8 array"); reveal_strlit("u64"); reveal_strlit(" array"); assert("i8 array"@ =~= array_name(Dtype::SignedInteger8)); assert("u64"@ =~= dtype_name(Dtype::UnsignedInteger64)); }
        ElucidatorError::new_conversion("i8 array", "u64")
    }

    fn as_i8(&self) -> (r: Result<i8, ElucidatorError>) {
        proof { reveal_strlit("i8 array"); reveal_strlit("i8"); reveal_strlit(" array"); assert("i8 array"@ =~= array_name(Dtype::SignedInteger8)); assert("i8"@ =~= dtype_name(Dtype::SignedInteger8)); }
        ElucidatorError::new_conversion("i8 array", "i8")
    }

    fn as_i16(&self) -> (r: Result<i16, ElucidatorError>) {
        proof { reveal_strlit("i8 array"); reveal_strlit("i16"); reveal_strlit(" array"); assert("i8 array"@ =~= array_name(Dtype::SignedInteger8)); assert("i16"@ =~= dtype_name(Dtype::SignedInteger16)); }
        ElucidatorError::new_conversion("i8 array", "i16")
    }

    fn as_i32(&self) -> (r: Result<i32, ElucidatorError>) {
        proof { reveal_strlit("i8 array"); reveal_strlit("i32"); reveal_strlit(" array"); assert("i8 array"@ =~= array_name(Dtype::SignedInteger8)); assert("i32"@ =~= dtype_name(Dtype::SignedInteger32)); }
        ElucidatorError::new_conversion("i8 array", "i32")
    }

    fn as_i64(&self) -> (r: Result<i64, ElucidatorError>) {
        proof { reveal_strlit("i8 array"); reveal_strlit("i64"); reveal_strlit(" array"); assert("i8 array"@ =~= array_name(Dtype::SignedInteger8)); assert("i64"@ =~= dtype_name(Dtype::SignedInteger64)); }
        ElucidatorError::new_conversion("i8 array", "i64")
    }

    fn as_string(&self) -> (r: Result<String, ElucidatorError>) {
        proof { reveal_strlit("i8 array"); reveal_strlit("string"); reveal_strlit(" array"); assert("i8 array"@ =~= array_name(Dtype::SignedInteger8)); }
        ElucidatorError::new_conversion("i8 array", "string")
    }

    fn as_vec_u8(&self) -> (r: Result<Vec<u8>, ElucidatorError>) {
        proof { reveal_strlit("i8 array"); reveal_strlit("u8 array"); reveal_strlit(" array"); assert("i8 array"@ =~= array_name(Dtype::SignedInteger8)); assert("u8 array"@ =~= array_name(Dtype::Byte)); }
        ElucidatorError::new_narrowing("i8 array", "u8 array")
    }

    fn as_vec_u16(&self) -> (r: Result<Vec<u16>, ElucidatorError>) {
        proof { reveal_strlit("i8 array"); reveal_strlit("u16 array"); reveal_strlit(" array"); assert("i8 array"@ =~= array_name(Dtype::SignedInteger8)); assert("u16 array"@ =~= array_name(Dtype::UnsignedInteger16)); }
        ElucidatorError::new_narrowing("i8 array", "u16 array")
    }

    fn as_vec_u32(&self) -> (r: Result<Vec<u32>, ElucidatorError>) {
        proof { reveal_strlit("i8 array"); reveal_strlit("u32 array"); reveal_strlit(" array"); assert("i8 array"@ =~= array_name(Dtype::SignedInteger8)); assert("u32 array"@ =~= array_name(Dtype::UnsignedInteger32)); }
        ElucidatorError::new_narrowing("i8 array", "u32 array")
    }

    fn as_vec_u64(&self) -> (r: Result<Vec<u64>, ElucidatorError>) {
        proof { reveal_strlit("i8 array"); reveal_strlit("u64 array"); reveal_strlit(" array"); assert("i8 array"@ =~= array_name(Dtype::SignedInteger8)); assert("u64 array"@ =~= array_name(Dtype::UnsignedInteger64)); }
        ElucidatorError::new_narrowing("i8 array", "u64 array")
    }

    fn as_vec_i8(&self) -> (r: Result<Vec<i8>, ElucidatorError>) {
        let w = widen_i8(self);
        proof {
            assert forall|k: int| 0 <= k < w@.len() implies {
                let y = #[trigger] w@[k];
                i8::MIN <= y <= i8::MAX
            } by {
                assert(w@[k] as int == self@[k] as int);
            }
        }
        let r = narrow_i8(&w);
        Ok(r)
    }

    fn as_vec_i16(&self) -> (r: Result<Vec<i16>, ElucidatorError>) {
        let w = widen_i8(self);
        proof {
            assert forall|k: int| 0 <= k < w@.len() implies {
                let y = #[trigger] w@[k];
                i16::MIN <= y <= i16::MAX
            } by {
                assert(w@[k] as int == self@[k] as int);
            }
        }
        let r = narrow_i16(&w);
        Ok(r)
    }

    fn as_vec_i32(&self) -> (r: Result<Vec<i32>, ElucidatorError>) {
        let w = widen_i8(self);
        proof {
            assert forall|k: int| 0 <= k < w@.len() implies {
                let y = #[trigger] w@[k];
                i32::MIN <= y <= i32::MAX
            } by {
                assert(w@[k] as int == self@[k] as int);
            }
        }
        let r = narrow_i32(&w);
        Ok(r)
    }

    fn as_vec_i64(&self) -> (r: Result<Vec<i64>, ElucidatorError>) {
        let w = widen_i8(self);
        proof {
            assert forall|k: int| 0 <= k < w@.len() implies {
                let y = #[trigger] w@[k];
                i64::MIN <= y <= i64::MAX
            } by {
                assert(w@[k] as int == self@[k] as int);
            }
        }
        let r = narrow_i64(&w);
        Ok(r)
    }
}

impl Representable for Vec<i16> {
    open spec fn value(&self) -> DataValueV {
        DataValueV::Array(Dtype::SignedInteger16, self@.map_values(|x: i16| x as int))
    }

    fn is_numeric(&self) -> (b: bool) {
        true
    }

    fn is_array(&self) -> (b: bool) {
        true
    }

    fn get_dtype(&self) -> (d: Dtype) {
        Dtype::SignedInteger16
    }

    fn is_signed(&self) -> (b: bool) {
        true
    }

    fn is_integer(&self) -> (b: bool) {
        true
    }

    fn is_floating(&self) -> (b: bool) {
        false
    }

    fn as_buffer(&self) -> (r: Vec<u8>) {
        let w = widen_i16(self);
        proof {
            lemma_pow256_values();
            assert forall|i: int| 0 <= i < w@.len() implies crate::value::in_range(Dtype::SignedInteger16, #[trigger] w@[i] as int) by {
                assert(w@[i] as int == self@[i] as int);
            }
        }
        array_bytes(Dtype::SignedInteger16, &w)
    }

    fn as_u8(&self) -> (r: Result<u8, ElucidatorError>) {
        proof { reveal_strlit("i16 array"); reveal_strlit("u8"); reveal_strlit(" array"); assert("i16 array"@ =~= array_name(Dtype::SignedInteger16)); assert("u8"@ =~= dtype_name(Dtype::Byte)); }
        ElucidatorError::new_conversion("i16 array", "u8")
    }

    fn as_u16(&self) -> (r: Result<u16, ElucidatorError>) {
        proof { reveal_strlit("i16 array"); reveal_strlit("u16"); reveal_strlit(" array"); assert("i16 array"@ =~= array_name(Dtype::SignedInteger16)); assert("u16"@ =~= dtype_name(Dtype::UnsignedInteger16)); }
        ElucidatorError::new_conversion("i16 array", "u16")
    }

    fn as_u32(&self) -> (r: Result<u32, ElucidatorError>) {
        proof { reveal_strlit("i16 array"); reveal_strlit("u32"); reveal_strlit(" array"); assert("i16 array"@ =~= array_name(Dtype::SignedInteger16)); assert("u32"@ =~= dtype_name(Dtype::UnsignedInteger32)); }
        ElucidatorError::new_conversion("i16 array", "u32")
    }

    fn as_u64(&self) -> (r: Result<u64, ElucidatorError>) {
        proof { reveal_strlit("i16 array"); reveal_strlit("u64"); reveal_strlit(" array"); assert("i16 array"@ =~= array_name(Dtype::SignedInteger16)); assert("u64"@ =~= dtype_name(Dtype::UnsignedInteger64)); }
        ElucidatorError::new_conversion("i16 array", "u64")
    }

    fn as_i8(&self) -> (r: Result<i8, ElucidatorError>) {
        proof { reveal_strlit("i16 array"); reveal_strlit("i8"); reveal_strlit(" array"); assert("i16 array"@ =~= array_name(Dtype::SignedInteger16)); assert("i8"@ =~= dtype_name(Dtype::SignedInteger8)); }
        ElucidatorError::new_conversion("i16 array", "i8")
    }

    fn as_i16(&self) -> (r: Result<i16, ElucidatorError>) {
        proof { reveal_strlit("i16 array"); reveal_strlit("i16"); reveal_strlit(" array"); assert("i16 array"@ =~= array_name(Dtype::SignedInteger16)); assert("i16"@ =~= dtype_name(Dtype::SignedInteger16)); }
        ElucidatorError::new_conversion("i16 array", "i16")
    }

    fn as_i32(&self) -> (r: Result<i32, ElucidatorError>) {
        proof { reveal_strlit("i16 array"); reveal_strlit("i32"); reveal_strlit(" array"); assert("i16 array"@ =~= array_name(Dtype::SignedInteger16)); assert("i32"@ =~= dtype_name(Dtype::SignedInteger32)); }
        ElucidatorError::new_conversion("i16 array", "i32")
    }

    fn as_i64(&self) -> (r: Result<i64, ElucidatorError>) {
        proof { reveal_strlit("i16 array"); reveal_strlit("i64"); reveal_strlit(" array"); assert("i16 array"@ =~= array_name(Dtype::SignedInteger16)); assert("i64"@ =~= dtype_name(Dtype::SignedInteger64)); }
        ElucidatorError::new_conversion("i16 array", "i64")
    }

    fn as_string(&self) -> (r: Result<String, ElucidatorError>) {
        proof { reveal_strlit("i16 array"); reveal_strlit("string"); reveal_strlit(" array"); assert("i16 array"@ =~= array_name(Dtype::SignedInteger16)); }
        ElucidatorError::new_conversion("i16 array", "string")
    }

    fn as_vec_u8(&self) -> (r: Result<Vec<u8>, ElucidatorError>) {
        proof { reveal_strlit("i16 array"); reveal_strlit("u8 array"); reveal_strlit(" array"); assert("i16 array"@ =~= array_name(Dtype::SignedInteger16)); assert("u8 array"@ =~= array_name(Dtype::Byte)); }
        ElucidatorError::new_narrowing("i16 array", "u8 array")
    }

    fn as_vec_u16(&self) -> (r: Result<Vec<u16>, ElucidatorError>) {
        proof { reveal_strlit("i16 array"); reveal_strlit("u16 array"); reveal_strlit(" array"); assert("i16 array"@ =~= array_name(Dtype::SignedInteger16)); assert("u16 array"@ =~= array_name(Dtype::UnsignedInteger16)); }
        ElucidatorError::new_narrowing("i16 array", "u16 array")
    }

    fn as_vec_u32(&self) -> (r: Result<Vec<u32>, ElucidatorError>) {
        proof { reveal_strlit("i16 array"); reveal_strlit("u32 array"); reveal_strlit(" array"); assert("i16 array"@ =~= array_name(Dtype::SignedInteger16)); assert("u32 array"@ =~= array_name(Dtype::UnsignedInteger32)); }
        ElucidatorError::new_narrowing("i16 array", "u32 array")
    }

    fn as_vec_u64(&self) -> (r: Result<Vec<u64>, ElucidatorError>) {
        proof { reveal_strlit("i16 array"); reveal_strlit("u64 array"); reveal_strlit(" array"); assert("i16 array"@ =~= array_name(Dtype::SignedInteger16)); assert("u64 array"@ =~= array_name(Dtype::UnsignedInteger64)); }
        ElucidatorError::new_narrowing("i16 array", "u64 array")
    }

    fn as_vec_i8(&self) -> (r: Result<Vec<i8>, ElucidatorError>) {
        proof { reveal_strlit("i16 array"); reveal_strlit("i8 array"); reveal_strlit(" array"); assert("i16 array"@ =~= array_name(Dtype::SignedInteger16)); assert("i8 array"@ =~= array_name(Dtype::SignedInteger8)); }
        ElucidatorError::new_narrowing("i16 array", "i8 array")
    }

    fn as_vec_i16(&self) -> (r: Result<Vec<i16>, ElucidatorError>) {
        let w = widen_i16(self);
        proof {
            assert forall|k: int| 0 <= k < w@.len() implies {
                let y = #[trigger] w@[k];
                i16::MIN <= y <= i16::MAX
            } by {
                assert(w@[k] as int == self@[k] as int);
            }
        }
        let r = narrow_i16(&w);
        Ok(r)
    }

    fn as_vec_i32(&self) -> (r: Result<Vec<i32>, ElucidatorError>) {
        let w = widen_i16(self);
        proof {
            assert forall|k: int| 0 <= k < w@.len() implies {
                let y = #[trigger] w@[k];
                i32::MIN <= y <= i32::MAX
            } by {
                assert(w@[k] as int == self@[k] as int);
            }
        }
        let r = narrow_i32(&w);
        Ok(r)
    }

    fn as_vec_i64(&self) -> (r: Result<Vec<i64>, ElucidatorError>) {
        let w = widen_i16(self);
        proof {
            assert forall|k: int| 0 <= k < w@.len() implies {
                let y = #[trigger] w@[k];
                i64::MIN <= y <= i64::MAX
            } by {
                assert(w@[k] as int == self@[k] as int);
            }
        }
        let r = narrow_i64(&w);
        Ok(r)
    }
}

impl Representable for Vec<i32> {
    open spec fn value(&self) -> DataValueV {
        DataValueV::Array(Dtype::SignedInteger32, self@.map_values(|x: i32| x as int))
    }

    fn is_numeric(&self) -> (b: bool) {
        true
    }

    fn is_array(&self) -> (b: bool) {
        true
    }

    fn get_dtype(&self) -> (d: Dtype) {
        Dtype::SignedInteger32
    }

    fn is_signed(&self) -> (b: bool) {
        true
    }

    fn is_integer(&self) -> (b: bool) {
        true
    }

    fn is_floating(&self) -> (b: bool) {
        false
    }

    fn as_buffer(&self) -> (r: Vec<u8>) {
        let w = widen_i32(self);
        proof {
            lemma_pow256_values();
            assert forall|i: int| 0 <= i < w@.len() implies crate::value::in_range(Dtype::SignedInteger32, #[trigger] w@[i] as int) by {
                assert(w@[i] as int == self@[i] as int);
            }
        }
        array_bytes(Dtype::SignedInteger32, &w)
    }

    fn as_u8(&self) -> (r: Result<u8, ElucidatorError>) {
        proof { reveal_strlit("i32 array"); reveal_strlit("u8"); reveal_strlit(" array"); assert("i32 array"@ =~= array_name(Dtype::SignedInteger32)); assert("u8"@ =~= dtype_name(Dtype::Byte)); }
        ElucidatorError::new_conversion("i32 array", "u8")
    }

    fn as_u16(&self) -> (r: Result<u16, ElucidatorError>) {
        proof { reveal_strlit("i32 array"); reveal_strlit("u16"); reveal_strlit(" array"); assert("i32 array"@ =~= array_name(Dtype::SignedInteger32)); assert("u16"@ =~= dtype_name(Dtype::UnsignedInteger16)); }
        ElucidatorError::new_conversion("i32 array", "u16")
    }

    fn as_u32(&self) -> (r: Result<u32, ElucidatorError>) {
        proof { reveal_strlit("i32 array"); reveal_strlit("u32"); reveal_strlit(" array"); assert("i32 array"@ =~= array_name(Dtype::SignedInteger32)); assert("u32"@ =~= dtype_name(Dtype::UnsignedInteger32)); }
        ElucidatorError::new_conversion("i32 array", "u32")
    }

    fn as_u64(&self) -> (r: Result<u64, ElucidatorError>) {
        proof { reveal_strlit("i32 array"); reveal_strlit("u64"); reveal_strlit(" array"); assert("i32 array"@ =~= array_name(Dtype::SignedInteger32)); assert("u64"@ =~= dtype_name(Dtype::UnsignedInteger64)); }
        ElucidatorError::new_conversion("i32 array", "u64")
    }

    fn as_i8(&self) -> (r: Result<i8, ElucidatorError>) {
        proof { reveal_strlit("i32 array"); reveal_strlit("i8"); reveal_strlit(" array"); assert("i32 array"@ =~= array_name(Dtype::SignedInteger32)); assert("i8"@ =~= dtype_name(Dtype::SignedInteger8)); }
        ElucidatorError::new_conversion("i32 array", "i8")
    }

    fn as_i16(&self) -> (r: Result<i16, ElucidatorError>) {
        proof { reveal_strlit("i32 array"); reveal_strlit("i16"); reveal_strlit(" array"); assert("i32 array"@ =~= array_name(Dtype::SignedInteger32)); assert("i16"@ =~= dtype_name(Dtype::SignedInteger16)); }
        ElucidatorError::new_conversion("i32 array", "i16")
    }

    fn as_i32(&self) -> (r: Result<i32, ElucidatorError>) {
        proof { reveal_strlit("i32 array"); reveal_strlit("i32"); reveal_strlit(" array"); assert("i32 array"@ =~= array_name(Dtype::SignedInteger32)); assert("i32"@ =~= dtype_name(Dtype::SignedInteger32)); }
        ElucidatorError::new_conversion("i32 array", "i32")
    }

    fn as_i64(&self) -> (r: Result<i64, ElucidatorError>) {
        proof { reveal_strlit("i32 array"); reveal_strlit("i64"); reveal_strlit(" array"); assert("i32 array"@ =~= array_name(Dtype::SignedInteger32)); assert("i64"@ =~= dtype_name(Dtype::SignedInteger64)); }
        ElucidatorError::new_conversion("i32 array", "i64")
    }

    fn as_string(&self) -> (r: Result<String, ElucidatorError>) {
        proof { reveal_strlit("i32 array"); reveal_strlit("string"); reveal_strlit(" array"); assert("i32 array"@ =~= array_name(Dtype::SignedInteger32)); }
        ElucidatorError::new_conversion("i32 array", "string")
    }

    fn as_vec_u8(&self) -> (r: Result<Vec<u8>, ElucidatorError>) {
        proof { reveal_strlit("i32 array"); reveal_strlit("u8 array"); reveal_strlit(" array"); assert("i32 array"@ =~= array_name(Dtype::SignedInteger32)); assert("u8 array"@ =~= array_name(Dtype::Byte)); }
        ElucidatorError::new_narrowing("i32 array", "u8 array")
    }

    fn as_vec_u16(&self) -> (r: Result<Vec<u16>, ElucidatorError>) {
        proof { reveal_strlit("i32 array"); reveal_strlit("u16 array"); reveal_strlit(" array"); assert("i32 array"@ =~= array_name(Dtype::SignedInteger32)); assert("u16 array"@ =~= array_name(Dtype::UnsignedInteger16)); }
        ElucidatorError::new_narrowing("i32 array", "u16 array")
    }

    fn as_vec_u32(&self) -> (r: Result<Vec<u32>, ElucidatorError>) {
        proof { reveal_strlit("i32 array"); reveal_strlit("u32 array"); reveal_strlit(" array"); assert("i32 array"@ =~= array_name(Dtype::SignedInteger32)); assert("u32 array"@ =~= array_name(Dtype::UnsignedInteger32)); }
        ElucidatorError::new_narrowing("i32 array", "u32 array")
    }

    fn as_vec_u64(&self) -> (r: Result<Vec<u64>, ElucidatorError>) {
        proof { reveal_strlit("i32 array"); reveal_strlit("u64 array"); reveal_strlit(" array"); assert("i32 array"@ =~= array_name(Dtype::SignedInteger32)); assert("u64 array"@ =~= array_name(Dtype::UnsignedInteger64)); }
        ElucidatorError::new_narrowing("i32 array", "u64 array")
    }

    fn as_vec_i8(&self) -> (r: Result<Vec<i8>, ElucidatorError>) {
        proof { reveal_strlit("i32 array"); reveal_strlit("i8 array"); reveal_strlit(" array"); assert("i32 array"@ =~= array_name(Dtype::SignedInteger32)); assert("i8 array"@ =~= array_name(Dtype::SignedInteger8)); }
        ElucidatorError::new_narrowing("i32 array", "i8 array")
    }

    fn as_vec_i16(&self) -> (r: Result<Vec<i16>, ElucidatorError>) {
        proof { reveal_strlit("i32 array"); reveal_strlit("i16 array"); reveal_strlit(" array"); assert("i32 array"@ =~= array_name(Dtype::SignedInteger32)); assert("i16 array"@ =~= array_name(Dtype::SignedInteger16)); }
        ElucidatorError::new_narrowing("i32 array", "i16 array")
    }

    fn as_vec_i32(&self) -> (r: Result<Vec<i32>, ElucidatorError>) {
        let w = widen_i32(self);
        proof {
            assert forall|k: int| 0 <= k < w@.len() implies {
                let y = #[trigger] w@[k];
                i32::MIN <= y <= i32::MAX
            } by {
                assert(w@[k] as int == self@[k] as int);
            }
        }
        let r = narrow_i32(&w);
        Ok(r)
    }

    fn as_vec_i64(&self) -> (r: Result<Vec<i64>, ElucidatorError>) {
        let w = widen_i32(self);
        proof {
            assert forall|k: int| 0 <= k < w@.len() implies {
                let y = #[trigger] w@[k];
                i64::MIN <= y <= i64::MAX
            } by {
                assert(w@[k] as int == self@[k] as int);
            }
        }
        let r = narrow_i64(&w);
        Ok(r)
    }
}

impl Representable for Vec<i64> {
    open spec fn value(&self) -> DataValueV {
        DataValueV::Array(Dtype::SignedInteger64, self@.map_values(|x: i64| x as int))
    }

    fn is_numeric(&self) -> (b: bool) {
        true
    }

    fn is_array(&self) -> (b: bool) {
        true
    }

    fn get_dtype(&self) -> (d: Dtype) {
        Dtype::SignedInteger64
    }

    fn is_signed(&self) -> (b: bool) {
        true
    }

    fn is_integer(&self) -> (b: bool) {
        true
    }

    fn is_floating(&self) -> (b: bool) {
        false
    }

    fn as_buffer(&self) -> (r: Vec<u8>) {
        let w = widen_i64(self);
        proof {
            lemma_pow256_values();
            assert forall|i: int| 0 <= i < w@.len() implies crate::value::in_range(Dtype::SignedInteger64, #[trigger] w@[i] as int) by {
                assert(w@[i] as int == self@[i] as int);
            }
        }
        array_bytes(Dtype::SignedInteger64, &w)
    }

    fn as_u8(&self) -> (r: Result<u8, ElucidatorError>) {
        proof { reveal_strlit("i64 array"); reveal_strlit("u8"); reveal_strlit(" array"); assert("i64 array"@ =~= array_name(Dtype::SignedInteger64)); assert("u8"@ =~= dtype_name(Dtype::Byte)); }
        ElucidatorError::new_conversion("i64 array", "u8")
    }

    fn as_u16(&self) -> (r: Result<u16, ElucidatorError>) {
        proof { reveal_strlit("i64 array"); reveal_strlit("u16"); reveal_strlit(" array"); assert("i64 array"@ =~= array_name(Dtype::SignedInteger64)); assert("u16"@ =~= dtype_name(Dtype::UnsignedInteger16)); }
        ElucidatorError::new_conversion("i64 array", "u16")
    }

    fn as_u32(&self) -> (r: Result<u32, ElucidatorError>) {
        proof { reveal_strlit("i64 array"); reveal_strlit("u32"); reveal_strlit(" array"); assert("i64 array"@ =~= array_name(Dtype::SignedInteger64)); assert("u32"@ =~= dtype_name(Dtype::UnsignedInteger32)); }
        ElucidatorError::new_conversion("i64 array", "u32")
    }

    fn as_u64(&self) -> (r: Result<u64, ElucidatorError>) {
        proof { reveal_strlit("i64 array"); reveal_strlit("u64"); reveal_strlit(" array"); assert("i64 array"@ =~= array_name(Dtype::SignedInteger64)); assert("u64"@ =~= dtype_name(Dtype::UnsignedInteger64)); }
        ElucidatorError::new_conversion("i64 array", "u64")
    }

    fn as_i8(&self) -> (r: Result<i8, ElucidatorError>) {
        proof { reveal_strlit("i64 array"); reveal_strlit("i8"); reveal_strlit(" array"); assert("i64 array"@ =~= array_name(Dtype::SignedInteger64)); assert("i8"@ =~= dtype_name(Dtype::SignedInteger8)); }
        ElucidatorError::new_conversion("i64 array", "i8")
    }

    fn as_i16(&self) -> (r: Result<i16, ElucidatorError>) {
        proof { reveal_strlit("i64 array"); reveal_strlit("i16"); reveal_strlit(" array"); assert("i64 array"@ =~= array_name(Dtype::SignedInteger64)); assert("i16"@ =~= dtype_name(Dtype::SignedInteger16)); }
        ElucidatorError::new_conversion("i64 array", "i16")
    }

    fn as_i32(&self) -> (r: Result<i32, ElucidatorError>) {
        proof { reveal_strlit("i64 array"); reveal_strlit("i32"); reveal_strlit(" array"); assert("i64 array"@ =~= array_name(Dtype::SignedInteger64)); assert("i32"@ =~= dtype_name(Dtype::SignedInteger32)); }
        ElucidatorError::new_conversion("i64 array", "i32")
    }

    fn as_i64(&self) -> (r: Result<i64, ElucidatorError>) {
        proof { reveal_strlit("i64 array"); reveal_strlit("i64"); reveal_strlit(" array"); assert("i64 array"@ =~= array_name(Dtype::SignedInteger64)); assert("i64"@ =~= dtype_name(Dtype::SignedInteger64)); }
        ElucidatorError::new_conversion("i64 array", "i64")
    }

    fn as_string(&self) -> (r: Result<String, ElucidatorError>) {
        proof { reveal_strlit("i64 array"); reveal_strlit("string"); reveal_strlit(" array"); assert("i64 array"@ =~= array_name(Dtype::SignedInteger64)); }
        ElucidatorError::new_conversion("i64 array", "string")
    }

    fn as_vec_u8(&self) -> (r: Result<Vec<u8>, ElucidatorError>) {
        proof { reveal_strlit("i64 array"); reveal_strlit("u8 array"); reveal_strlit(" array"); assert("i64 array"@ =~= array_name(Dtype::SignedInteger64)); assert("u8 array"@ =~= array_name(Dtype::Byte)); }
        ElucidatorError::new_narrowing("i64 array", "u8 array")
    }

    fn as_vec_u16(&self) -> (r: Result<Vec<u16>, ElucidatorError>) {
        proof { reveal_strlit("i64 array"); reveal_strlit("u16 array"); reveal_strlit(" array"); assert("i64 array"@ =~= array_name(Dtype::SignedInteger64)); assert("u16 array"@ =~= array_name(Dtype::UnsignedInteger16)); }
        ElucidatorError::new_narrowing("i64 array", "u16 array")
    }

    fn as_vec_u32(&self) -> (r: Result<Vec<u32>, ElucidatorError>) {
        proof { reveal_strlit("i64 array"); reveal_strlit("u32 array"); reveal_strlit(" array"); assert("i64 array"@ =~= array_name(Dtype::SignedInteger64)); assert("u32 array"@ =~= array_name(Dtype::UnsignedInteger32)); }
        ElucidatorError::new_narrowing("i64 array", "u32 array")
    }

    fn as_vec_u64(&self) -> (r: Result<Vec<u64>, ElucidatorError>) {
        proof { reveal_strlit("i64 array"); reveal_strlit("u64 array"); reveal_strlit(" array"); assert("i64 array"@ =~= array_name(Dtype::SignedInteger64)); assert("u64 array"@ =~= array_name(Dtype::UnsignedInteger64)); }
        ElucidatorError::new_narrowing("i64 array", "u64 array")
    }

    fn as_vec_i8(&self) -> (r: Result<Vec<i8>, ElucidatorError>) {
        proof { reveal_strlit("i64 array"); reveal_strlit("i8 array"); reveal_strlit(" array"); assert("i64 array"@ =~= array_name(Dtype::SignedInteger64)); assert("i8 array"@ =~= array_name(Dtype::SignedInteger8)); }
        ElucidatorError::new_narrowing("i64 array", "i8 array")
    }

    fn as_vec_i16(&self) -> (r: Result<Vec<i16>, ElucidatorError>) {
        proof { reveal_strlit("i64 array"); reveal_strlit("i16 array"); reveal_strlit(" array"); assert("i64 array"@ =~= array_name(Dtype::SignedInteger64)); assert("i16 array"@ =~= array_name(Dtype::SignedInteger16)); }
        ElucidatorError::new_narrowing("i64 array", "i16 array")
    }

    fn as_vec_i32(&self) -> (r: Result<Vec<i32>, ElucidatorError>) {
        proof { reveal_strlit("i64 array"); reveal_strlit("i32 array"); reveal_strlit(" array"); assert("i64 array"@ =~= array_name(Dtype::SignedInteger64)); assert("i32 array"@ =~= array_name(Dtype::SignedInteger32)); }
        ElucidatorError::new_narrowing("i64 array", "i32 array")
    }

    fn as_vec_i64(&self) -> (r: Result<Vec<i64>, ElucidatorError>) {
        let w = widen_i64(self);
        proof {
            assert forall|k: int| 0 <= k < w@.len() implies {
                let y = #[trigger] w@[k];
                i64::MIN <= y <= i64::MAX
            } by {
                assert(w@[k] as int == self@[k] as int);
            }
        }
        let r = narrow_i64(&w);
        Ok(r)
    }
}

impl Representable for String {
    open spec fn value(&self) -> DataValueV {
        DataValueV::Text(self@)
    }

    fn is_numeric(&self) -> (b: bool) {
        false
    }

    fn is_array(&self) -> (b: bool) {
        false
    }

    fn get_dtype(&self) -> (d: Dtype) {
        Dtype::Str
    }

    fn is_signed(&self) -> (b: bool) {
        false
    }

    fn is_integer(&self) -> (b: bool) {
        false
    }

    fn is_floating(&self) -> (b: bool) {
        false
    }

    fn as_buffer(&self) -> (r: Vec<u8>) {
        text_buffer(self.as_str())
    }

    fn as_u8(&self) -> (r: Result<u8, ElucidatorError>) {
        proof { reveal_strlit("string"); reveal_strlit("u8"); assert("u8"@ =~= dtype_name(Dtype::Byte)); }
        ElucidatorError::new_conversion("string", "u8")
    }

    fn as_u16(&self) -> (r: Result<u16, ElucidatorError>) {
        proof { reveal_strlit("string"); reveal_strlit("u16"); assert("u16"@ =~= dtype_name(Dtype::UnsignedInteger16)); }
        ElucidatorError::new_conversion("string", "u16")
    }

    fn as_u32(&self) -> (r: Result<u32, ElucidatorError>) {
        proof { reveal_strlit("string"); reveal_strlit("u32"); assert("u32"@ =~= dtype_name(Dtype::UnsignedInteger32)); }
        ElucidatorError::new_conversion("string", "u32")
    }

    fn as_u64(&self) -> (r: Result<u64, ElucidatorError>) {
        proof { reveal_strlit("string"); reveal_strlit("u64"); assert("u64"@ =~= dtype_name(Dtype::UnsignedInteger64)); }
        ElucidatorError::new_conversion("string", "u64")
    }

    fn as_i8(&self) -> (r: Result<i8, ElucidatorError>) {
        proof { reveal_strlit("string"); reveal_strlit("i8"); assert("i8"@ =~= dtype_name(Dtype::SignedInteger8)); }
        ElucidatorError::new_conversion("string", "i8")
    }

    fn as_i16(&self) -> (r: Result<i16, ElucidatorError>) {
        proof { reveal_strlit("string"); reveal_strlit("i16"); assert("i16"@ =~= dtype_name(Dtype::SignedInteger16)); }
        ElucidatorError::new_conversion("string", "i16")
    }

    fn as_i32(&self) -> (r: Result<i32, ElucidatorError>) {
        proof { reveal_strlit("string"); reveal_strlit("i32"); assert("i32"@ =~= dtype_name(Dtype::SignedInteger32)); }
        ElucidatorError::new_conversion("string", "i32")
    }

    fn as_i64(&self) -> (r: Result<i64, ElucidatorError>) {
        proof { reveal_strlit("string"); reveal_strlit("i64"); assert("i64"@ =~= dtype_name(Dtype::SignedInteger64)); }
        ElucidatorError::new_conversion("string", "i64")
    }

    fn as_string(&self) -> (r: Result<String, ElucidatorError>) {
        Ok(self.clone())
    }

    fn as_vec_u8(&self) -> (r: Result<Vec<u8>, ElucidatorError>) {
        proof { reveal_strlit("string"); reveal_strlit("u8 array"); reveal_strlit(" array"); assert("u8 array"@ =~= array_name(Dtype::Byte)); }
        ElucidatorError::new_conversion("string", "u8 array")
    }

    fn as_vec_u16(&self) -> (r: Result<Vec<u16>, ElucidatorError>) {
        proof { reveal_strlit("string"); reveal_strlit("u16 array"); reveal_strlit(" array"); assert("u16 array"@ =~= array_name(Dtype::UnsignedInteger16)); }
        ElucidatorError::new_conversion("string", "u16 array")
    }

    fn as_vec_u32(&self) -> (r: Result<Vec<u32>, ElucidatorError>) {
        proof { reveal_strlit("string"); reveal_strlit("u32 array"); reveal_strlit(" array"); assert("u32 array"@ =~= array_name(Dtype::UnsignedInteger32)); }
        ElucidatorError::new_conversion("string", "u32 array")
    }

    fn as_vec_u64(&self) -> (r: Result<Vec<u64>, ElucidatorError>) {
        proof { reveal_strlit("string"); reveal_strlit("u64 array"); reveal_strlit(" array"); assert("u64 array"@ =~= array_name(Dtype::UnsignedInteger64)); }
        ElucidatorError::new_conversion("string", "u64 array")
    }

    fn as_vec_i8(&self) -> (r: Result<Vec<i8>, ElucidatorError>) {
        proof { reveal_strlit("string"); reveal_strlit("i8 array"); reveal_strlit(" array"); assert("i8 array"@ =~= array_name(Dtype::SignedInteger8)); }
        ElucidatorError::new_conversion("string", "i8 array")
    }

    fn as_vec_i16(&self) -> (r: Result<Vec<i16>, ElucidatorError>) {
        proof { reveal_strlit("string"); reveal_strlit("i16 array"); reveal_strlit(" array"); assert("i16 array"@ =~= array_name(Dtype::SignedInteger16)); }
        ElucidatorError::new_conversion("string", "i16 array")
    }

    fn as_vec_i32(&self) -> (r: Result<Vec<i32>, ElucidatorError>) {
        proof { reveal_strlit("string"); reveal_strlit("i32 array"); reveal_strlit(" array"); assert("i32 array"@ =~= array_name(Dtype::SignedInteger32)); }
        ElucidatorError::new_conversion("string", "i32 array")
    }

    fn as_vec_i64(&self) -> (r: Result<Vec<i64>, ElucidatorError>) {
        proof { reveal_strlit("string"); reveal_strlit("i64 array"); reveal_strlit(" array"); assert("i64 array"@ =~= array_name(Dtype::SignedInteger64)); }
        ElucidatorError::new_conversion("string", "i64 array")
    }
}

impl Representable for DataValue {
    open spec fn value(&self) -> DataValueV {
        self@
    }

    fn is_numeric(&self) -> (b: bool) {
        match self {
            DataValue::Byte(x) => x.is_numeric(),
            DataValue::UnsignedInteger16(x) => x.is_numeric(),
            DataValue::UnsignedInteger32(x) => x.is_numeric(),
            DataValue::UnsignedInteger64(x) => x.is_numeric(),
            DataValue::SignedInteger8(x) => x.is_numeric(),
            DataValue::SignedInteger16(x) => x.is_numeric(),
            DataValue::SignedInteger32(x) => x.is_numeric(),
            DataValue::SignedInteger64(x) => x.is_numeric(),
            DataValue::ByteArray(x) => x.is_numeric(),
            DataValue::UnsignedInteger16Array(x) => x.is_numeric(),
            DataValue::UnsignedInteger32Array(x) => x.is_numeric(),
            DataValue::UnsignedInteger64Array(x) => x.is_numeric(),
            DataValue::SignedInteger8Array(x) => x.is_numeric(),
            DataValue::SignedInteger16Array(x) => x.is_numeric(),
            DataValue::SignedInteger32Array(x) => x.is_numeric(),
            DataValue::SignedInteger64Array(x) => x.is_numeric(),
            DataValue::Float32(_) => {
                true
            },
            DataValue::Float32Array(_) => {
                true
            },
            DataValue::Float64(_) => {
                true
            },
            DataValue::Float64Array(_) => {
                true
            },
            DataValue::Str(s) => s.is_numeric(),
        }
    }

    fn is_array(&self) -> (b: bool) {
        match self {
            DataValue::Byte(x) => x.is_array(),
            DataValue::UnsignedInteger16(x) => x.is_array(),
            DataValue::UnsignedInteger32(x) => x.is_array(),
            DataValue::UnsignedInteger64(x) => x.is_array(),
            DataValue::SignedInteger8(x) => x.is_array(),
            DataValue::SignedInteger16(x) => x.is_array(),
            DataValue::SignedInteger32(x) => x.is_array(),
            DataValue::SignedInteger64(x) => x.is_array(),
            DataValue::ByteArray(x) => x.is_array(),
            DataValue::UnsignedInteger16Array(x) => x.is_array(),
            DataValue::UnsignedInteger32Array(x) => x.is_array(),
            DataValue::UnsignedInteger64Array(x) => x.is_array(),
            DataValue::SignedInteger8Array(x) => x.is_array(),
            DataValue::SignedInteger16Array(x) => x.is_array(),
            DataValue::SignedInteger32Array(x) => x.is_array(),
            DataValue::SignedInteger64Array(x) => x.is_array(),
            DataValue::Float32(_) => {
                false
            },
            DataValue::Float32Array(_) => {
                true
            },
            DataValue::Float64(_) => {
                false
            },
            DataValue::Float64Array(_) => {
                true
            },
            DataValue::Str(s) => s.is_array(),
        }
    }

    fn is_signed(&self) -> (b: bool) {
        match self {
            DataValue::Byte(x) => x.is_signed(),
            DataValue::UnsignedInteger16(x) => x.is_signed(),
            DataValue::UnsignedInteger32(x) => x.is_signed(),
            DataValue::UnsignedInteger64(x) => x.is_signed(),
            DataValue::SignedInteger8(x) => x.is_signed(),
            DataValue::SignedInteger16(x) => x.is_signed(),
            DataValue::SignedInteger32(x) => x.is_signed(),
            DataValue::SignedInteger64(x) => x.is_signed(),
            DataValue::ByteArray(x) => x.is_signed(),
            DataValue::UnsignedInteger16Array(x) => x.is_signed(),
            DataValue::UnsignedInteger32Array(x) => x.is_signed(),
            DataValue::UnsignedInteger64Array(x) => x.is_signed(),
            DataValue::SignedInteger8Array(x) => x.is_signed(),
            DataValue::SignedInteger16Array(x) => x.is_signed(),
            DataValue::SignedInteger32Array(x) => x.is_signed(),
            DataValue::SignedInteger64Array(x) => x.is_signed(),
            DataValue::Float32(_) => {
                true
            },
            DataValue::Float32Array(_) => {
                true
            },
            DataValue::Float64(_) => {
                true
            },
            DataValue::Float64Array(_) => {
                true
            },
            DataValue::Str(s) => s.is_signed(),
        }
    }

    fn is_integer(&self) -> (b: bool) {
        match self {
            DataValue::Byte(x) => x.is_integer(),
            DataValue::UnsignedInteger16(x) => x.is_integer(),
            DataValue::UnsignedInteger32(x) => x.is_integer(),
            DataValue::UnsignedInteger64(x) => x.is_integer(),
            DataValue::SignedInteger8(x) => x.is_integer(),
            DataValue::SignedInteger16(x) => x.is_integer(),
            DataValue::SignedInteger32(x) => x.is_integer(),
            DataValue::SignedInteger64(x) => x.is_integer(),
            DataValue::ByteArray(x) => x.is_integer(),
            DataValue::UnsignedInteger16Array(x) => x.is_integer(),
            DataValue::UnsignedInteger32Array(x) => x.is_integer(),
            DataValue::UnsignedInteger64Array(x) => x.is_integer(),
            DataValue::SignedInteger8Array(x) => x.is_integer(),
            DataValue::SignedInteger16Array(x) => x.is_integer(),
            DataValue::SignedInteger32Array(x) => x.is_integer(),
            DataValue::SignedInteger64Array(x) => x.is_integer(),
            DataValue::Float32(_) => {
                false
            },
            DataValue::Float32Array(_) => {
                false
            },
            DataValue::Float64(_) => {
                false
            },
            DataValue::Float64Array(_) => {
                false
            },
            DataValue::Str(s) => s.is_integer(),
        }
    }

    fn is_floating(&self) -> (b: bool) {
        match self {
            DataValue::Byte(x) => x.is_floating(),
            DataValue::UnsignedInteger16(x) => x.is_floating(),
            DataValue::UnsignedInteger32(x) => x.is_floating(),
            DataValue::UnsignedInteger64(x) => x.is_floating(),
            DataValue::SignedInteger8(x) => x.is_floating(),
            DataValue::SignedInteger16(x) => x.is_floating(),
            DataValue::SignedInteger32(x) => x.is_floating(),
            DataValue::SignedInteger64(x) => x.is_floating(),
            DataValue::ByteArray(x) => x.is_floating(),
            DataValue::UnsignedInteger16Array(x) => x.is_floating(),
            DataValue::UnsignedInteger32Array(x) => x.is_floating(),
            DataValue::UnsignedInteger64Array(x) => x.is_floating(),
            DataValue::SignedInteger8Array(x) => x.is_floating(),
            DataValue::SignedInteger16Array(x) => x.is_floating(),
            DataValue::SignedInteger32Array(x) => x.is_floating(),
            DataValue::SignedInteger64Array(x) => x.is_floating(),
            DataValue::Float32(_) => {
                true
            },
            DataValue::Float32Array(_) => {
                true
            },
            DataValue::Float64(_) => {
                true
            },
            DataValue::Float64Array(_) => {
                true
            },
            DataValue::Str(s) => s.is_floating(),
        }
    }

    fn get_dtype(&self) -> (d: Dtype) {
        match self {
            DataValue::Byte(x) => x.get_dtype(),
            DataValue::UnsignedInteger16(x) => x.get_dtype(),
            DataValue::UnsignedInteger32(x) => x.get_dtype(),
            DataValue::UnsignedInteger64(x) => x.get_dtype(),
            DataValue::SignedInteger8(x) => x.get_dtype(),
            DataValue::SignedInteger16(x) => x.get_dtype(),
            DataValue::SignedInteger32(x) => x.get_dtype(),
            DataValue::SignedInteger64(x) => x.get_dtype(),
            DataValue::ByteArray(x) => x.get_dtype(),
            DataValue::UnsignedInteger16Array(x) => x.get_dtype(),
            DataValue::UnsignedInteger32Array(x) => x.get_dtype(),
            DataValue::UnsignedInteger64Array(x) => x.get_dtype(),
            DataValue::SignedInteger8Array(x) => x.get_dtype(),
            DataValue::SignedInteger16Array(x) => x.get_dtype(),
            DataValue::SignedInteger32Array(x) => x.get_dtype(),
            DataValue::SignedInteger64Array(x) => x.get_dtype(),
            DataValue::Float32(_) => {
                Dtype::Float32
            },
            DataValue::Float32Array(_) => {
                Dtype::Float32
            },
            DataValue::Float64(_) => {
                Dtype::Float64
            },
            DataValue::Float64Array(_) => {
                Dtype::Float64
            },
            DataValue::Str(s) => s.get_dtype(),
        }
    }

    fn as_buffer(&self) -> (r: Vec<u8>) {
        DataValue::as_buffer(self)
    }

    fn as_u8(&self) -> (r: Result<u8, ElucidatorError>) {
        match self {
            DataValue::Byte(x) => x.as_u8(),
            DataValue::UnsignedInteger16(x) => x.as_u8(),
            DataValue::UnsignedInteger32(x) => x.as_u8(),
            DataValue::UnsignedInteger64(x) => x.as_u8(),
            DataValue::SignedInteger8(x) => x.as_u8(),
            DataValue::SignedInteger16(x) => x.as_u8(),
            DataValue::SignedInteger32(x) => x.as_u8(),
            DataValue::SignedInteger64(x) => x.as_u8(),
            DataValue::ByteArray(x) => x.as_u8(),
            DataValue::UnsignedInteger16Array(x) => x.as_u8(),
            DataValue::UnsignedInteger32Array(x) => x.as_u8(),
            DataValue::UnsignedInteger64Array(x) => x.as_u8(),
            DataValue::SignedInteger8Array(x) => x.as_u8(),
            DataValue::SignedInteger16Array(x) => x.as_u8(),
            DataValue::SignedInteger32Array(x) => x.as_u8(),
            DataValue::SignedInteger64Array(x) => x.as_u8(),
            DataValue::Float32(_) => {
                proof { reveal_strlit("f32"); reveal_strlit("u8"); assert("f32"@ =~= dtype_name(Dtype::Float32)); assert("u8"@ =~= dtype_name(Dtype::Byte)); } ElucidatorError::new_narrowing("f32", "u8")
            },
            DataValue::Float32Array(_) => {
                proof { reveal_strlit("f32 array"); reveal_strlit("u8"); reveal_strlit(" array"); assert("f32 array"@ =~= array_name(Dtype::Float32)); assert("u8"@ =~= dtype_name(Dtype::Byte)); } ElucidatorError::new_conversion("f32 array", "u8")
            },
            DataValue::Float64(_) => {
                proof { reveal_strlit("f64"); reveal_strlit("u8"); assert("f64"@ =~= dtype_name(Dtype::Float64)); assert("u8"@ =~= dtype_name(Dtype::Byte)); } ElucidatorError::new_narrowing("f64", "u8")
            },
            DataValue::Float64Array(_) => {
                proof { reveal_strlit("f64 array"); reveal_strlit("u8"); reveal_strlit(" array"); assert("f64 array"@ =~= array_name(Dtype::Float64)); assert("u8"@ =~= dtype_name(Dtype::Byte)); } ElucidatorError::new_conversion("f64 array", "u8")
            },
            DataValue::Str(s) => s.as_u8(),
        }
    }

    fn as_u16(&self) -> (r: Result<u16, ElucidatorError>) {
        match self {
            DataValue::Byte(x) => x.as_u16(),
            DataValue::UnsignedInteger16(x) => x.as_u16(),
            DataValue::UnsignedInteger32(x) => x.as_u16(),
            DataValue::UnsignedInteger64(x) => x.as_u16(),
            DataValue::SignedInteger8(x) => x.as_u16(),
            DataValue::SignedInteger16(x) => x.as_u16(),
            DataValue::SignedInteger32(x) => x.as_u16(),
            DataValue::SignedInteger64(x) => x.as_u16(),
            DataValue::ByteArray(x) => x.as_u16(),
            DataValue::UnsignedInteger16Array(x) => x.as_u16(),
            DataValue::UnsignedInteger32Array(x) => x.as_u16(),
            DataValue::UnsignedInteger64Array(x) => x.as_u16(),
            DataValue::SignedInteger8Array(x) => x.as_u16(),
            DataValue::SignedInteger16Array(x) => x.as_u16(),
            DataValue::SignedInteger32Array(x) => x.as_u16(),
            DataValue::SignedInteger64Array(x) => x.as_u16(),
            DataValue::Float32(_) => {
                proof { reveal_strlit("f32"); reveal_strlit("u16"); assert("f32"@ =~= dtype_name(Dtype::Float32)); assert("u16"@ =~= dtype_name(Dtype::UnsignedInteger16)); } ElucidatorError::new_narrowing("f32", "u16")
            },
            DataValue::Float32Array(_) => {
                proof { reveal_strlit("f32 array"); reveal_strlit("u16"); reveal_strlit(" array"); assert("f32 array"@ =~= array_name(Dtype::Float32)); assert("u16"@ =~= dtype_name(Dtype::UnsignedInteger16)); } ElucidatorError::new_conversion("f32 array", "u16")
            },
            DataValue::Float64(_) => {
                proof { reveal_strlit("f64"); reveal_strlit("u16"); assert("f64"@ =~= dtype_name(Dtype::Float64)); assert("u16"@ =~= dtype_name(Dtype::UnsignedInteger16)); } ElucidatorError::new_narrowing("f64", "u16")
            },
            DataValue::Float64Array(_) => {
                proof { reveal_strlit("f64 array"); reveal_strlit("u16"); reveal_strlit(" array"); assert("f64 array"@ =~= array_name(Dtype::Float64)); assert("u16"@ =~= dtype_name(Dtype::UnsignedInteger16)); } ElucidatorError::new_conversion("f64 array", "u16")
            },
            DataValue::Str(s) => s.as_u16(),
        }
    }

    fn as_u32(&self) -> (r: Result<u32, ElucidatorError>) {
        match self {
            DataValue::Byte(x) => x.as_u32(),
            DataValue::UnsignedInteger16(x) => x.as_u32(),
            DataValue::UnsignedInteger32(x) => x.as_u32(),
            DataValue::UnsignedInteger64(x) => x.as_u32(),
            DataValue::SignedInteger8(x) => x.as_u32(),
            DataValue::SignedInteger16(x) => x.as_u32(),
            DataValue::SignedInteger32(x) => x.as_u32(),
            DataValue::SignedInteger64(x) => x.as_u32(),
            DataValue::ByteArray(x) => x.as_u32(),
            DataValue::UnsignedInteger16Array(x) => x.as_u32(),
            DataValue::UnsignedInteger32Array(x) => x.as_u32(),
            DataValue::UnsignedInteger64Array(x) => x.as_u32(),
            DataValue::SignedInteger8Array(x) => x.as_u32(),
            DataValue::SignedInteger16Array(x) => x.as_u32(),
            DataValue::SignedInteger32Array(x) => x.as_u32(),
            DataValue::SignedInteger64Array(x) => x.as_u32(),
            DataValue::Float32(_) => {
                proof { reveal_strlit("f32"); reveal_strlit("u32"); assert("f32"@ =~= dtype_name(Dtype::Float32)); assert("u32"@ =~= dtype_name(Dtype::UnsignedInteger32)); } ElucidatorError::new_narrowing("f32", "u32")
            },
            DataValue::Float32Array(_) => {
                proof { reveal_strlit("f32 array"); reveal_strlit("u32"); reveal_strlit(" array"); assert("f32 array"@ =~= array_name(Dtype::Float32)); assert("u32"@ =~= dtype_name(Dtype::UnsignedInteger32)); } ElucidatorError::new_conversion("f32 array", "u32")
            },
            DataValue::Float64(_) => {
                proof { reveal_strlit("f64"); reveal_strlit("u32"); assert("f64"@ =~= dtype_name(Dtype::Float64)); assert("u32"@ =~= dtype_name(Dtype::UnsignedInteger32)); } ElucidatorError::new_narrowing("f64", "u32")
            },
            DataValue::Float64Array(_) => {
                proof { reveal_strlit("f64 array"); reveal_strlit("u32"); reveal_strlit(" array"); assert("f64 array"@ =~= array_name(Dtype::Float64)); assert("u32"@ =~= dtype_name(Dtype::UnsignedInteger32)); } ElucidatorError::new_conversion("f64 array", "u32")
            },
            DataValue::Str(s) => s.as_u32(),
        }
    }

    fn as_u64(&self) -> (r: Result<u64, ElucidatorError>) {
        match self {
            DataValue::Byte(x) => x.as_u64(),
            DataValue::UnsignedInteger16(x) => x.as_u64(),
            DataValue::UnsignedInteger32(x) => x.as_u64(),
            DataValue::UnsignedInteger64(x) => x.as_u64(),
            DataValue::SignedInteger8(x) => x.as_u64(),
            DataValue::SignedInteger16(x) => x.as_u64(),
            DataValue::SignedInteger32(x) => x.as_u64(),
            DataValue::SignedInteger64(x) => x.as_u64(),
            DataValue::ByteArray(x) => x.as_u64(),
            DataValue::UnsignedInteger16Array(x) => x.as_u64(),
            DataValue::UnsignedInteger32Array(x) => x.as_u64(),
            DataValue::UnsignedInteger64Array(x) => x.as_u64(),
            DataValue::SignedInteger8Array(x) => x.as_u64(),
            DataValue::SignedInteger16Array(x) => x.as_u64(),
            DataValue::SignedInteger32Array(x) => x.as_u64(),
            DataValue::SignedInteger64Array(x) => x.as_u64(),
            DataValue::Float32(_) => {
                proof { reveal_strlit("f32"); reveal_strlit("u64"); assert("f32"@ =~= dtype_name(Dtype::Float32)); assert("u64"@ =~= dtype_name(Dtype::UnsignedInteger64)); } ElucidatorError::new_narrowing("f32", "u64")
            },
            DataValue::Float32Array(_) => {
                proof { reveal_strlit("f32 array"); reveal_strlit("u64"); reveal_strlit(" array"); assert("f32 array"@ =~= array_name(Dtype::Float32)); assert("u64"@ =~= dtype_name(Dtype::UnsignedInteger64)); } ElucidatorError::new_conversion("f32 array", "u64")
            },
            DataValue::Float64(_) => {
                proof { reveal_strlit("f64"); reveal_strlit("u64"); assert("f64"@ =~= dtype_name(Dtype::Float64)); assert("u64"@ =~= dtype_name(Dtype::UnsignedInteger64)); } ElucidatorError::new_narrowing("f64", "u64")
            },
            DataValue::Float64Array(_) => {
                proof { reveal_strlit("f64 array"); reveal_strlit("u64"); reveal_strlit(" array"); assert("f64 array"@ =~= array_name(Dtype::Float64)); assert("u64"@ =~= dtype_name(Dtype::UnsignedInteger64)); } ElucidatorError::new_conversion("f64 array", "u64")
            },
            DataValue::Str(s) => s.as_u64(),
        }
    }

    fn as_i8(&self) -> (r: Result<i8, ElucidatorError>) {
        match self {
            DataValue::Byte(x) => x.as_i8(),
            DataValue::UnsignedInteger16(x) => x.as_i8(),
            DataValue::UnsignedInteger32(x) => x.as_i8(),
            DataValue::UnsignedInteger64(x) => x.as_i8(),
            DataValue::SignedInteger8(x) => x.as_i8(),
            DataValue::SignedInteger16(x) => x.as_i8(),
            DataValue::SignedInteger32(x) => x.as_i8(),
            DataValue::SignedInteger64(x) => x.as_i8(),
            DataValue::ByteArray(x) => x.as_i8(),
            DataValue::UnsignedInteger16Array(x) => x.as_i8(),
            DataValue::UnsignedInteger32Array(x) => x.as_i8(),
            DataValue::UnsignedInteger64Array(x) => x.as_i8(),
            DataValue::SignedInteger8Array(x) => x.as_i8(),
            DataValue::SignedInteger16Array(x) => x.as_i8(),
            DataValue::SignedInteger32Array(x) => x.as_i8(),
            DataValue::SignedInteger64Array(x) => x.as_i8(),
            DataValue::Float32(_) => {
                proof { reveal_strlit("f32"); reveal_strlit("i8"); assert("f32"@ =~= dtype_name(Dtype::Float32)); assert("i8"@ =~= dtype_name(Dtype::SignedInteger8)); } ElucidatorError::new_narrowing("f32", "i8")
            },
            DataValue::Float32Array(_) => {
                proof { reveal_strlit("f32 array"); reveal_strlit("i8"); reveal_strlit(" array"); assert("f32 array"@ =~= array_name(Dtype::Float32)); assert("i8"@ =~= dtype_name(Dtype::SignedInteger8)); } ElucidatorError::new_conversion("f32 array", "i8")
            },
            DataValue::Float64(_) => {
                proof { reveal_strlit("f64"); reveal_strlit("i8"); assert("f64"@ =~= dtype_name(Dtype::Float64)); assert("i8"@ =~= dtype_name(Dtype::SignedInteger8)); } ElucidatorError::new_narrowing("f64", "i8")
            },
            DataValue::Float64Array(_) => {
                proof { reveal_strlit("f64 array"); reveal_strlit("i8"); reveal_strlit(" array"); assert("f64 array"@ =~= array_name(Dtype::Float64)); assert("i8"@ =~= dtype_name(Dtype::SignedInteger8)); } ElucidatorError::new_conversion("f64 array", "i8")
            },
            DataValue::Str(s) => s.as_i8(),
        }
    }

    fn as_i16(&self) -> (r: Result<i16, ElucidatorError>) {
        match self {
            DataValue::Byte(x) => x.as_i16(),
            DataValue::UnsignedInteger16(x) => x.as_i16(),
            DataValue::UnsignedInteger32(x) => x.as_i16(),
            DataValue::UnsignedInteger64(x) => x.as_i16(),
            DataValue::SignedInteger8(x) => x.as_i16(),
            DataValue::SignedInteger16(x) => x.as_i16(),
            DataValue::SignedInteger32(x) => x.as_i16(),
            DataValue::SignedInteger64(x) => x.as_i16(),
            DataValue::ByteArray(x) => x.as_i16(),
            DataValue::UnsignedInteger16Array(x) => x.as_i16(),
            DataValue::UnsignedInteger32Array(x) => x.as_i16(),
            DataValue::UnsignedInteger64Array(x) => x.as_i16(),
            DataValue::SignedInteger8Array(x) => x.as_i16(),
            DataValue::SignedInteger16Array(x) => x.as_i16(),
            DataValue::SignedInteger32Array(x) => x.as_i16(),
            DataValue::SignedInteger64Array(x) => x.as_i16(),
            DataValue::Float32(_) => {
                proof { reveal_strlit("f32"); reveal_strlit("i16"); assert("f32"@ =~= dtype_name(Dtype::Float32)); assert("i16"@ =~= dtype_name(Dtype::SignedInteger16)); } ElucidatorError::new_narrowing("f32", "i16")
            },
            DataValue::Float32Array(_) => {
                proof { reveal_strlit("f32 array"); reveal_strlit("i16"); reveal_strlit(" array"); assert("f32 array"@ =~= array_name(Dtype::Float32)); assert("i16"@ =~= dtype_name(Dtype::SignedInteger16)); } ElucidatorError::new_conversion("f32 array", "i16")
            },
            DataValue::Float64(_) => {
                proof { reveal_strlit("f64"); reveal_strlit("i16"); assert("f64"@ =~= dtype_name(Dtype::Float64)); assert("i16"@ =~= dtype_name(Dtype::SignedInteger16)); } ElucidatorError::new_narrowing("f64", "i16")
            },
            DataValue::Float64Array(_) => {
                proof { reveal_strlit("f64 array"); reveal_strlit("i16"); reveal_strlit(" array"); assert("f64 array"@ =~= array_name(Dtype::Float64)); assert("i16"@ =~= dtype_name(Dtype::SignedInteger16)); } ElucidatorError::new_conversion("f64 array", "i16")
            },
            DataValue::Str(s) => s.as_i16(),
        }
    }

    fn as_i32(&self) -> (r: Result<i32, ElucidatorError>) {
        match self {
            DataValue::Byte(x) => x.as_i32(),
            DataValue::UnsignedInteger16(x) => x.as_i32(),
            DataValue::UnsignedInteger32(x) => x.as_i32(),
            DataValue::UnsignedInteger64(x) => x.as_i32(),
            DataValue::SignedInteger8(x) => x.as_i32(),
            DataValue::SignedInteger16(x) => x.as_i32(),
            DataValue::SignedInteger32(x) => x.as_i32(),
            DataValue::SignedInteger64(x) => x.as_i32(),
            DataValue::ByteArray(x) => x.as_i32(),
            DataValue::UnsignedInteger16Array(x) => x.as_i32(),
            DataValue::UnsignedInteger32Array(x) => x.as_i32(),
            DataValue::UnsignedInteger64Array(x) => x.as_i32(),
            DataValue::SignedInteger8Array(x) => x.as_i32(),
            DataValue::SignedInteger16Array(x) => x.as_i32(),
            DataValue::SignedInteger32Array(x) => x.as_i32(),
            DataValue::SignedInteger64Array(x) => x.as_i32(),
            DataValue::Float32(_) => {
                proof { reveal_strlit("f32"); reveal_strlit("i32"); assert("f32"@ =~= dtype_name(Dtype::Float32)); assert("i32"@ =~= dtype_name(Dtype::SignedInteger32)); } ElucidatorError::new_narrowing("f32", "i32")
            },
            DataValue::Float32Array(_) => {
                proof { reveal_strlit("f32 array"); reveal_strlit("i32"); reveal_strlit(" array"); assert("f32 array"@ =~= array_name(Dtype::Float32)); assert("i32"@ =~= dtype_name(Dtype::SignedInteger32)); } ElucidatorError::new_conversion("f32 array", "i32")
            },
            DataValue::Float64(_) => {
                proof { reveal_strlit("f64"); reveal_strlit("i32"); assert("f64"@ =~= dtype_name(Dtype::Float64)); assert("i32"@ =~= dtype_name(Dtype::SignedInteger32)); } ElucidatorError::new_narrowing("f64", "i32")
            },
            DataValue::Float64Array(_) => {
                proof { reveal_strlit("f64 array"); reveal_strlit("i32"); reveal_strlit(" array"); assert("f64 array"@ =~= array_name(Dtype::Float64)); assert("i32"@ =~= dtype_name(Dtype::SignedInteger32)); } ElucidatorError::new_conversion("f64 array", "i32")
            },
            DataValue::Str(s) => s.as_i32(),
        }
    }

    fn as_i64(&self) -> (r: Result<i64, ElucidatorError>) {
        match self {
            DataValue::Byte(x) => x.as_i64(),
            DataValue::UnsignedInteger16(x) => x.as_i64(),
            DataValue::UnsignedInteger32(x) => x.as_i64(),
            DataValue::UnsignedInteger64(x) => x.as_i64(),
            DataValue::SignedInteger8(x) => x.as_i64(),
            DataValue::SignedInteger16(x) => x.as_i64(),
            DataValue::SignedInteger32(x) => x.as_i64(),
            DataValue::SignedInteger64(x) => x.as_i64(),
            DataValue::ByteArray(x) => x.as_i64(),
            DataValue::UnsignedInteger16Array(x) => x.as_i64(),
            DataValue::UnsignedInteger32Array(x) => x.as_i64(),
            DataValue::UnsignedInteger64Array(x) => x.as_i64(),
            DataValue::SignedInteger8Array(x) => x.as_i64(),
            DataValue::SignedInteger16Array(x) => x.as_i64(),
            DataValue::SignedInteger32Array(x) => x.as_i64(),
            DataValue::SignedInteger64Array(x) => x.as_i64(),
            DataValue::Float32(_) => {
                proof { reveal_strlit("f32"); reveal_strlit("i64"); assert("f32"@ =~= dtype_name(Dtype::Float32)); assert("i64"@ =~= dtype_name(Dtype::SignedInteger64)); } ElucidatorError::new_narrowing("f32", "i64")
            },
            DataValue::Float32Array(_) => {
                proof { reveal_strlit("f32 array"); reveal_strlit("i64"); reveal_strlit(" array"); assert("f32 array"@ =~= array_name(Dtype::Float32)); assert("i64"@ =~= dtype_name(Dtype::SignedInteger64)); } ElucidatorError::new_conversion("f32 array", "i64")
            },
            DataValue::Float64(_) => {
                proof { reveal_strlit("f64"); reveal_strlit("i64"); assert("f64"@ =~= dtype_name(Dtype::Float64)); assert("i64"@ =~= dtype_name(Dtype::SignedInteger64)); } ElucidatorError::new_narrowing("f64", "i64")
            },
            DataValue::Float64Array(_) => {
                proof { reveal_strlit("f64 array"); reveal_strlit("i64"); reveal_strlit(" array"); assert("f64 array"@ =~= array_name(Dtype::Float64)); assert("i64"@ =~= dtype_name(Dtype::SignedInteger64)); } ElucidatorError::new_conversion("f64 array", "i64")
            },
            DataValue::Str(s) => s.as_i64(),
        }
    }

    fn as_string(&self) -> (r: Result<String, ElucidatorError>) {
        match self {
            DataValue::Byte(x) => x.as_string(),
            DataValue::UnsignedInteger16(x) => x.as_string(),
            DataValue::UnsignedInteger32(x) => x.as_string(),
            DataValue::UnsignedInteger64(x) => x.as_string(),
            DataValue::SignedInteger8(x) => x.as_string(),
            DataValue::SignedInteger16(x) => x.as_string(),
            DataValue::SignedInteger32(x) => x.as_string(),
            DataValue::SignedInteger64(x) => x.as_string(),
            DataValue::ByteArray(x) => x.as_string(),
            DataValue::UnsignedInteger16Array(x) => x.as_string(),
            DataValue::UnsignedInteger32Array(x) => x.as_string(),
            DataValue::UnsignedInteger64Array(x) => x.as_string(),
            DataValue::SignedInteger8Array(x) => x.as_string(),
            DataValue::SignedInteger16Array(x) => x.as_string(),
            DataValue::SignedInteger32Array(x) => x.as_string(),
            DataValue::SignedInteger64Array(x) => x.as_string(),
            DataValue::Float32(_) => {
                proof { reveal_strlit("f32"); reveal_strlit("string"); assert("f32"@ =~= dtype_name(Dtype::Float32)); } ElucidatorError::new_conversion("f32", "string")
            },
            DataValue::Float32Array(_) => {
                proof { reveal_strlit("f32 array"); reveal_strlit("string"); reveal_strlit(" array"); assert("f32 array"@ =~= array_name(Dtype::Float32)); } ElucidatorError::new_conversion("f32 array", "string")
            },
            DataValue::Float64(_) => {
                proof { reveal_strlit("f64"); reveal_strlit("string"); assert("f64"@ =~= dtype_name(Dtype::Float64)); } ElucidatorError::new_conversion("f64", "string")
            },
            DataValue::Float64Array(_) => {
                proof { reveal_strlit("f64 array"); reveal_strlit("string"); reveal_strlit(" array"); assert("f64 array"@ =~= array_name(Dtype::Float64)); } ElucidatorError::new_conversion("f64 array", "string")
            },
            DataValue::Str(s) => s.as_string(),
        }
    }

    fn as_vec_u8(&self) -> (r: Result<Vec<u8>, ElucidatorError>) {
        match self {
            DataValue::Byte(x) => x.as_vec_u8(),
            DataValue::UnsignedInteger16(x) => x.as_vec_u8(),
            DataValue::UnsignedInteger32(x) => x.as_vec_u8(),
            DataValue::UnsignedInteger64(x) => x.as_vec_u8(),
            DataValue::SignedInteger8(x) => x.as_vec_u8(),
            DataValue::SignedInteger16(x) => x.as_vec_u8(),
            DataValue::SignedInteger32(x) => x.as_vec_u8(),
            DataValue::SignedInteger64(x) => x.as_vec_u8(),
            DataValue::ByteArray(x) => x.as_vec_u8(),
            DataValue::UnsignedInteger16Array(x) => x.as_vec_u8(),
            DataValue::UnsignedInteger32Array(x) => x.as_vec_u8(),
            DataValue::UnsignedInteger64Array(x) => x.as_vec_u8(),
            DataValue::SignedInteger8Array(x) => x.as_vec_u8(),
            DataValue::SignedInteger16Array(x) => x.as_vec_u8(),
            DataValue::SignedInteger32Array(x) => x.as_vec_u8(),
            DataValue::SignedInteger64Array(x) => x.as_vec_u8(),
            DataValue::Float32(_) => {
                proof { reveal_strlit("f32"); reveal_strlit("u8 array"); reveal_strlit(" array"); assert("f32"@ =~= dtype_name(Dtype::Float32)); assert("u8 array"@ =~= array_name(Dtype::Byte)); } ElucidatorError::new_conversion("f32", "u8 array")
            },
            DataValue::Float32Array(_) => {
                proof { reveal_strlit("f32 array"); reveal_strlit("u8 array"); reveal_strlit(" array"); assert("f32 array"@ =~= array_name(Dtype::Float32)); assert("u8 array"@ =~= array_name(Dtype::Byte)); } ElucidatorError::new_narrowing("f32 array", "u8 array")
            },
            DataValue::Float64(_) => {
                proof { reveal_strlit("f64"); reveal_strlit("u8 array"); reveal_strlit(" array"); assert("f64"@ =~= dtype_name(Dtype::Float64)); assert("u8 array"@ =~= array_name(Dtype::Byte)); } ElucidatorError::new_conversion("f64", "u8 array")
            },
            DataValue::Float64Array(_) => {
                proof { reveal_strlit("f64 array"); reveal_strlit("u8 array"); reveal_strlit(" array"); assert("f64 array"@ =~= array_name(Dtype::Float64)); assert("u8 array"@ =~= array_name(Dtype::Byte)); } ElucidatorError::new_narrowing("f64 array", "u8 array")
            },
            DataValue::Str(s) => s.as_vec_u8(),
        }
    }

    fn as_vec_u16(&self) -> (r: Result<Vec<u16>, ElucidatorError>) {
        match self {
            DataValue::Byte(x) => x.as_vec_u16(),
            DataValue::UnsignedInteger16(x) => x.as_vec_u16(),
            DataValue::UnsignedInteger32(x) => x.as_vec_u16(),
            DataValue::UnsignedInteger64(x) => x.as_vec_u16(),
            DataValue::SignedInteger8(x) => x.as_vec_u16(),
            DataValue::SignedInteger16(x) => x.as_vec_u16(),
            DataValue::SignedInteger32(x) => x.as_vec_u16(),
            DataValue::SignedInteger64(x) => x.as_vec_u16(),
            DataValue::ByteArray(x) => x.as_vec_u16(),
            DataValue::UnsignedInteger16Array(x) => x.as_vec_u16(),
            DataValue::UnsignedInteger32Array(x) => x.as_vec_u16(),
            DataValue::UnsignedInteger64Array(x) => x.as_vec_u16(),
            DataValue::SignedInteger8Array(x) => x.as_vec_u16(),
            DataValue::SignedInteger16Array(x) => x.as_vec_u16(),
            DataValue::SignedInteger32Array(x) => x.as_vec_u16(),
            DataValue::SignedInteger64Array(x) => x.as_vec_u16(),
            DataValue::Float32(_) => {
                proof { reveal_strlit("f32"); reveal_strlit("u16 array"); reveal_strlit(" array"); assert("f32"@ =~= dtype_name(Dtype::Float32)); assert("u16 array"@ =~= array_name(Dtype::UnsignedInteger16)); } ElucidatorError::new_conversion("f32", "u16 array")
            },
            DataValue::Float32Array(_) => {
                proof { reveal_strlit("f32 array"); reveal_strlit("u16 array"); reveal_strlit(" array"); assert("f32 array"@ =~= array_name(Dtype::Float32)); assert("u16 array"@ =~= array_name(Dtype::UnsignedInteger16)); } ElucidatorError::new_narrowing("f32 array", "u16 array")
            },
            DataValue::Float64(_) => {
                proof { reveal_strlit("f64"); reveal_strlit("u16 array"); reveal_strlit(" array"); assert("f64"@ =~= dtype_name(Dtype::Float64)); assert("u16 array"@ =~= array_name(Dtype::UnsignedInteger16)); } ElucidatorError::new_conversion("f64", "u16 array")
            },
            DataValue::Float64Array(_) => {
                proof { reveal_strlit("f64 array"); reveal_strlit("u16 array"); reveal_strlit(" array"); assert("f64 array"@ =~= array_name(Dtype::Float64)); assert("u16 array"@ =~= array_name(Dtype::UnsignedInteger16)); } ElucidatorError::new_narrowing("f64 array", "u16 array")
            },
            DataValue::Str(s) => s.as_vec_u16(),
        }
    }

    fn as_vec_u32(&self) -> (r: Result<Vec<u32>, ElucidatorError>) {
        match self {
            DataValue::Byte(x) => x.as_vec_u32(),
            DataValue::UnsignedInteger16(x) => x.as_vec_u32(),
            DataValue::UnsignedInteger32(x) => x.as_vec_u32(),
            DataValue::UnsignedInteger64(x) => x.as_vec_u32(),
            DataValue::SignedInteger8(x) => x.as_vec_u32(),
            DataValue::SignedInteger16(x) => x.as_vec_u32(),
            DataValue::SignedInteger32(x) => x.as_vec_u32(),
            DataValue::SignedInteger64(x) => x.as_vec_u32(),
            DataValue::ByteArray(x) => x.as_vec_u32(),
            DataValue::UnsignedInteger16Array(x) => x.as_vec_u32(),
            DataValue::UnsignedInteger32Array(x) => x.as_vec_u32(),
            DataValue::UnsignedInteger64Array(x) => x.as_vec_u32(),
            DataValue::SignedInteger8Array(x) => x.as_vec_u32(),
            DataValue::SignedInteger16Array(x) => x.as_vec_u32(),
            DataValue::SignedInteger32Array(x) => x.as_vec_u32(),
            DataValue::SignedInteger64Array(x) => x.as_vec_u32(),
            DataValue::Float32(_) => {
                proof { reveal_strlit("f32"); reveal_strlit("u32 array"); reveal_strlit(" array"); assert("f32"@ =~= dtype_name(Dtype::Float32)); assert("u32 array"@ =~= array_name(Dtype::UnsignedInteger32)); } ElucidatorError::new_conversion("f32", "u32 array")
            },
            DataValue::Float32Array(_) => {
                proof { reveal_strlit("f32 array"); reveal_strlit("u32 array"); reveal_strlit(" array"); assert("f32 array"@ =~= array_name(Dtype::Float32)); assert("u32 array"@ =~= array_name(Dtype::UnsignedInteger32)); } ElucidatorError::new_narrowing("f32 array", "u32 array")
            },
            DataValue::Float64(_) => {
                proof { reveal_strlit("f64"); reveal_strlit("u32 array"); reveal_strlit(" array"); assert("f64"@ =~= dtype_name(Dtype::Float64)); assert("u32 array"@ =~= array_name(Dtype::UnsignedInteger32)); } ElucidatorError::new_conversion("f64", "u32 array")
            },
            DataValue::Float64Array(_) => {
                proof { reveal_strlit("f64 array"); reveal_strlit("u32 array"); reveal_strlit(" array"); assert("f64 array"@ =~= array_name(Dtype::Float64)); assert("u32 array"@ =~= array_name(Dtype::UnsignedInteger32)); } ElucidatorError::new_narrowing("f64 array", "u32 array")
            },
            DataValue::Str(s) => s.as_vec_u32(),
        }
    }

    fn as_vec_u64(&self) -> (r: Result<Vec<u64>, ElucidatorError>) {
        match self {
            DataValue::Byte(x) => x.as_vec_u64(),
            DataValue::UnsignedInteger16(x) => x.as_vec_u64(),
            DataValue::UnsignedInteger32(x) => x.as_vec_u64(),
            DataValue::UnsignedInteger64(x) => x.as_vec_u64(),
            DataValue::SignedInteger8(x) => x.as_vec_u64(),
            DataValue::SignedInteger16(x) => x.as_vec_u64(),
            DataValue::SignedInteger32(x) => x.as_vec_u64(),
            DataValue::SignedInteger64(x) => x.as_vec_u64(),
            DataValue::ByteArray(x) => x.as_vec_u64(),
            DataValue::UnsignedInteger16Array(x) => x.as_vec_u64(),
            DataValue::UnsignedInteger32Array(x) => x.as_vec_u64(),
            DataValue::UnsignedInteger64Array(x) => x.as_vec_u64(),
            DataValue::SignedInteger8Array(x) => x.as_vec_u64(),
            DataValue::SignedInteger16Array(x) => x.as_vec_u64(),
            DataValue::SignedInteger32Array(x) => x.as_vec_u64(),
            DataValue::SignedInteger64Array(x) => x.as_vec_u64(),
            DataValue::Float32(_) => {
                proof { reveal_strlit("f32"); reveal_strlit("u64 array"); reveal_strlit(" array"); assert("f32"@ =~= dtype_name(Dtype::Float32)); assert("u64 array"@ =~= array_name(Dtype::UnsignedInteger64)); } ElucidatorError::new_conversion("f32", "u64 array")
            },
            DataValue::Float32Array(_) => {
                proof { reveal_strlit("f32 array"); reveal_strlit("u64 array"); reveal_strlit(" array"); assert("f32 array"@ =~= array_name(Dtype::Float32)); assert("u64 array"@ =~= array_name(Dtype::UnsignedInteger64)); } ElucidatorError::new_narrowing("f32 array", "u64 array")
            },
            DataValue::Float64(_) => {
                proof { reveal_strlit("f64"); reveal_strlit("u64 array"); reveal_strlit(" array"); assert("f64"@ =~= dtype_name(Dtype::Float64)); assert("u64 array"@ =~= array_name(Dtype::UnsignedInteger64)); } ElucidatorError::new_conversion("f64", "u64 array")
            },
            DataValue::Float64Array(_) => {
                proof { reveal_strlit("f64 array"); reveal_strlit("u64 array"); reveal_strlit(" array"); assert("f64 array"@ =~= array_name(Dtype::Float64)); assert("u64 array"@ =~= array_name(Dtype::UnsignedInteger64)); } ElucidatorError::new_narrowing("f64 array", "u64 array")
            },
            DataValue::Str(s) => s.as_vec_u64(),
        }
    }

    fn as_vec_i8(&self) -> (r: Result<Vec<i8>, ElucidatorError>) {
        match self {
            DataValue::Byte(x) => x.as_vec_i8(),
            DataValue::UnsignedInteger16(x) => x.as_vec_i8(),
            DataValue::UnsignedInteger32(x) => x.as_vec_i8(),
            DataValue::UnsignedInteger64(x) => x.as_vec_i8(),
            DataValue::SignedInteger8(x) => x.as_vec_i8(),
            DataValue::SignedInteger16(x) => x.as_vec_i8(),
            DataValue::SignedInteger32(x) => x.as_vec_i8(),
            DataValue::SignedInteger64(x) => x.as_vec_i8(),
            DataValue::ByteArray(x) => x.as_vec_i8(),
            DataValue::UnsignedInteger16Array(x) => x.as_vec_i8(),
            DataValue::UnsignedInteger32Array(x) => x.as_vec_i8(),
            DataValue::UnsignedInteger64Array(x) => x.as_vec_i8(),
            DataValue::SignedInteger8Array(x) => x.as_vec_i8(),
            DataValue::SignedInteger16Array(x) => x.as_vec_i8(),
            DataValue::SignedInteger32Array(x) => x.as_vec_i8(),
            DataValue::SignedInteger64Array(x) => x.as_vec_i8(),
            DataValue::Float32(_) => {
                proof { reveal_strlit("f32"); reveal_strlit("i8 array"); reveal_strlit(" array"); assert("f32"@ =~= dtype_name(Dtype::Float32)); assert("i8 array"@ =~= array_name(Dtype::SignedInteger8)); } ElucidatorError::new_conversion("f32", "i8 array")
            },
            DataValue::Float32Array(_) => {
                proof { reveal_strlit("f32 array"); reveal_strlit("i8 array"); reveal_strlit(" array"); assert("f32 array"@ =~= array_name(Dtype::Float32)); assert("i8 array"@ =~= array_name(Dtype::SignedInteger8)); } ElucidatorError::new_narrowing("f32 array", "i8 array")
            },
            DataValue::Float64(_) => {
                proof { reveal_strlit("f64"); reveal_strlit("i8 array"); reveal_strlit(" array"); assert("f64"@ =~= dtype_name(Dtype::Float64)); assert("i8 array"@ =~= array_name(Dtype::SignedInteger8)); } ElucidatorError::new_conversion("f64", "i8 array")
            },
            DataValue::Float64Array(_) => {
                proof { reveal_strlit("f64 array"); reveal_strlit("i8 array"); reveal_strlit(" array"); assert("f64 array"@ =~= array_name(Dtype::Float64)); assert("i8 array"@ =~= array_name(Dtype::SignedInteger8)); } ElucidatorError::new_narrowing("f64 array", "i8 array")
            },
            DataValue::Str(s) => s.as_vec_i8(),
        }
    }

    fn as_vec_i16(&self) -> (r: Result<Vec<i16>, ElucidatorError>) {
        match self {
            DataValue::Byte(x) => x.as_vec_i16(),
            DataValue::UnsignedInteger16(x) => x.as_vec_i16(),
            DataValue::UnsignedInteger32(x) => x.as_vec_i16(),
            DataValue::UnsignedInteger64(x) => x.as_vec_i16(),
            DataValue::SignedInteger8(x) => x.as_vec_i16(),
            DataValue::SignedInteger16(x) => x.as_vec_i16(),
            DataValue::SignedInteger32(x) => x.as_vec_i16(),
            DataValue::SignedInteger64(x) => x.as_vec_i16(),
            DataValue::ByteArray(x) => x.as_vec_i16(),
            DataValue::UnsignedInteger16Array(x) => x.as_vec_i16(),
            DataValue::UnsignedInteger32Array(x) => x.as_vec_i16(),
            DataValue::UnsignedInteger64Array(x) => x.as_vec_i16(),
            DataValue::SignedInteger8Array(x) => x.as_vec_i16(),
            DataValue::SignedInteger16Array(x) => x.as_vec_i16(),
            DataValue::SignedInteger32Array(x) => x.as_vec_i16(),
            DataValue::SignedInteger64Array(x) => x.as_vec_i16(),
            DataValue::Float32(_) => {
                proof { reveal_strlit("f32"); reveal_strlit("i16 array"); reveal_strlit(" array"); assert("f32"@ =~= dtype_name(Dtype::Float32)); assert("i16 array"@ =~= array_name(Dtype::SignedInteger16)); } ElucidatorError::new_conversion("f32", "i16 array")
            },
            DataValue::Float32Array(_) => {
                proof { reveal_strlit("f32 array"); reveal_strlit("i16 array"); reveal_strlit(" array"); assert("f32 array"@ =~= array_name(Dtype::Float32)); assert("i16 array"@ =~= array_name(Dtype::SignedInteger16)); } ElucidatorError::new_narrowing("f32 array", "i16 array")
            },
            DataValue::Float64(_) => {
                proof { reveal_strlit("f64"); reveal_strlit("i16 array"); reveal_strlit(" array"); assert("f64"@ =~= dtype_name(Dtype::Float64)); assert("i16 array"@ =~= array_name(Dtype::SignedInteger16)); } ElucidatorError::new_conversion("f64", "i16 array")
            },
            DataValue::Float64Array(_) => {
                proof { reveal_strlit("f64 array"); reveal_strlit("i16 array"); reveal_strlit(" array"); assert("f64 array"@ =~= array_name(Dtype::Float64)); assert("i16 array"@ =~= array_name(Dtype::SignedInteger16)); } ElucidatorError::new_narrowing("f64 array", "i16 array")
            },
            DataValue::Str(s) => s.as_vec_i16(),
        }
    }

    fn as_vec_i32(&self) -> (r: Result<Vec<i32>, ElucidatorError>) {
        match self {
            DataValue::Byte(x) => x.as_vec_i32(),
            DataValue::UnsignedInteger16(x) => x.as_vec_i32(),
            DataValue::UnsignedInteger32(x) => x.as_vec_i32(),
            DataValue::UnsignedInteger64(x) => x.as_vec_i32(),
            DataValue::SignedInteger8(x) => x.as_vec_i32(),
            DataValue::SignedInteger16(x) => x.as_vec_i32(),
            DataValue::SignedInteger32(x) => x.as_vec_i32(),
            DataValue::SignedInteger64(x) => x.as_vec_i32(),
            DataValue::ByteArray(x) => x.as_vec_i32(),
            DataValue::UnsignedInteger16Array(x) => x.as_vec_i32(),
            DataValue::UnsignedInteger32Array(x) => x.as_vec_i32(),
            DataValue::UnsignedInteger64Array(x) => x.as_vec_i32(),
            DataValue::SignedInteger8Array(x) => x.as_vec_i32(),
            DataValue::SignedInteger16Array(x) => x.as_vec_i32(),
            DataValue::SignedInteger32Array(x) => x.as_vec_i32(),
            DataValue::SignedInteger64Array(x) => x.as_vec_i32(),
            DataValue::Float32(_) => {
                proof { reveal_strlit("f32"); reveal_strlit("i32 array"); reveal_strlit(" array"); assert("f32"@ =~= dtype_name(Dtype::Float32)); assert("i32 array"@ =~= array_name(Dtype::SignedInteger32)); } ElucidatorError::new_conversion("f32", "i32 array")
            },
            DataValue::Float32Array(_) => {
                proof { reveal_strlit("f32 array"); reveal_strlit("i32 array"); reveal_strlit(" array"); assert("f32 array"@ =~= array_name(Dtype::Float32)); assert("i32 array"@ =~= array_name(Dtype::SignedInteger32)); } ElucidatorError::new_narrowing("f32 array", "i32 array")
            },
            DataValue::Float64(_) => {
                proof { reveal_strlit("f64"); reveal_strlit("i32 array"); reveal_strlit(" array"); assert("f64"@ =~= dtype_name(Dtype::Float64)); assert("i32 array"@ =~= array_name(Dtype::SignedInteger32)); } ElucidatorError::new_conversion("f64", "i32 array")
            },
            DataValue::Float64Array(_) => {
                proof { reveal_strlit("f64 array"); reveal_strlit("i32 array"); reveal_strlit(" array"); assert("f64 array"@ =~= array_name(Dtype::Float64)); assert("i32 array"@ =~= array_name(Dtype::SignedInteger32)); } ElucidatorError::new_narrowing("f64 array", "i32 array")
            },
            DataValue::Str(s) => s.as_vec_i32(),
        }
    }

    fn as_vec_i64(&self) -> (r: Result<Vec<i64>, ElucidatorError>) {
        match self {
            DataValue::Byte(x) => x.as_vec_i64(),
            DataValue::UnsignedInteger16(x) => x.as_vec_i64(),
            DataValue::UnsignedInteger32(x) => x.as_vec_i64(),
            DataValue::UnsignedInteger64(x) => x.as_vec_i64(),
            DataValue::SignedInteger8(x) => x.as_vec_i64(),
            DataValue::SignedInteger16(x) => x.as_vec_i64(),
            DataValue::SignedInteger32(x) => x.as_vec_i64(),
            DataValue::SignedInteger64(x) => x.as_vec_i64(),
            DataValue::ByteArray(x) => x.as_vec_i64(),
            DataValue::UnsignedInteger16Array(x) => x.as_vec_i64(),
            DataValue::UnsignedInteger32Array(x) => x.as_vec_i64(),
            DataValue::UnsignedInteger64Array(x) => x.as_vec_i64(),
            DataValue::SignedInteger8Array(x) => x.as_vec_i64(),
            DataValue::SignedInteger16Array(x) => x.as_vec_i64(),
            DataValue::SignedInteger32Array(x) => x.as_vec_i64(),
            DataValue::SignedInteger64Array(x) => x.as_vec_i64(),
            DataValue::Float32(_) => {
                proof { reveal_strlit("f32"); reveal_strlit("i64 array"); reveal_strlit(" array"); assert("f32"@ =~= dtype_name(Dtype::Float32)); assert("i64 array"@ =~= array_name(Dtype::SignedInteger64)); } ElucidatorError::new_conversion("f32", "i64 array")
            },
            DataValue::Float32Array(_) => {
                proof { reveal_strlit("f32 array"); reveal_strlit("i64 array"); reveal_strlit(" array"); assert("f32 array"@ =~= array_name(Dtype::Float32)); assert("i64 array"@ =~= array_name(Dtype::SignedInteger64)); } ElucidatorError::new_narrowing("f32 array", "i64 array")
            },
            DataValue::Float64(_) => {
                proof { reveal_strlit("f64"); reveal_strlit("i64 array"); reveal_strlit(" array"); assert("f64"@ =~= dtype_name(Dtype::Float64)); assert("i64 array"@ =~= array_name(Dtype::SignedInteger64)); } ElucidatorError::new_conversion("f64", "i64 array")
            },
            DataValue::Float64Array(_) => {
                proof { reveal_strlit("f64 array"); reveal_strlit("i64 array"); reveal_strlit(" array"); assert("f64 array"@ =~= array_name(Dtype::Float64)); assert("i64 array"@ =~= array_name(Dtype::SignedInteger64)); } ElucidatorError::new_narrowing("f64 array", "i64 array")
            },
            DataValue::Str(s) => s.as_vec_i64(),
        }
    }
}

/// The integer data types.
pub open spec fn integer_type(d: Dtype) -> bool {
    d != Dtype::Str && !is_float(d)
}

/// Every value of type `s` is a value of type `t`.
pub open spec fn values_included(s: Dtype, t: Dtype) -> bool {
    forall|x: int| crate::value::in_range(s, x) ==> #[trigger] crate::value::in_range(t, x)
}

/// Between integer types, `widens` holds exactly when every value of the source type is a value
/// of the target type.
pub proof fn lemma_widens_is_inclusion(s: Dtype, t: Dtype)
    requires
        integer_type(s),
        integer_type(t),
    ensures
        widens(s, t) == values_included(s, t),
{
    lemma_pow256_values();
    if widens(s, t) {
        assert forall|x: int| crate::value::in_range(s, x) implies #[trigger] crate::value::in_range(t, x) by {
            lemma_pow256_values();
        }
    } else {
        let ps = crate::bytes::pow256(crate::value::width(s));
        let x: int = if signed_type(s) && !signed_type(t) {
            -1
        } else if signed_type(s) {
            ps / 2 - 1
        } else {
            ps - 1
        };
        assert(crate::value::in_range(s, x));
        assert(!crate::value::in_range(t, x));
    }
}

/// Law: converting an integer of type `s` to integer type `t` (as `as_u8` .. `as_i64` do) gives
/// the same number exactly when every value of `s` is a value of `t`; otherwise it is a
/// narrowing error naming both types. Whole arrays convert likewise, element for element.
pub proof fn lemma_integer_conversions(s: Dtype, t: Dtype, x: int, xs: Seq<int>)
    requires
        integer_type(s),
        integer_type(t),
        crate::value::in_range(s, x),
    ensures
        values_included(s, t) ==> scalar_conversion(DataValueV::Scalar(s, x), t) == Ok::<int, ElucidatorErrorV>(x)
            && crate::value::in_range(t, x),
        !values_included(s, t) ==> scalar_conversion(DataValueV::Scalar(s, x), t) == Err::<int, ElucidatorErrorV>(
            ElucidatorErrorV::Narrowing { from: dtype_name(s), to: dtype_name(t) },
        ),
        values_included(s, t) ==> array_conversion(DataValueV::Array(s, xs), t) == Ok::<Seq<int>, ElucidatorErrorV>(xs),
        !values_included(s, t) ==> array_conversion(DataValueV::Array(s, xs), t) == Err::<Seq<int>, ElucidatorErrorV>(
            ElucidatorErrorV::Narrowing { from: array_name(s), to: array_name(t) },
        ),
{
    lemma_widens_is_inclusion(s, t);
}

/// Law: only a string converts to a string, keeping its text; a single number never converts
/// to an array nor an array to a single number, and a string converts to no number.
pub proof fn lemma_conversion_kinds(v: DataValueV, t: Dtype)
    ensures
        string_conversion(v) is Ok <==> v is Text,
        v matches DataValueV::Text(s) ==> string_conversion(v) == Ok::<Seq<char>, ElucidatorErrorV>(s),
        !(v is Scalar) ==> (scalar_conversion(v, t) matches Err(e) && e is Conversion),
        !(v is Array) ==> (array_conversion(v, t) matches Err(e) && e is Conversion),
{
}

} // verus!
