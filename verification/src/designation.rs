//! Designation specifications: the ordered members of a designation, parsed from text, and the
//! interpretation of metadata buffers by them.
use vstd::prelude::*;
use vstd::string::*;
use vstd::utf8::{decode_utf8, valid_utf8};
use crate::bytes::{le_bytes, le_value, lemma_le_round_trip, lemma_pow256_values, pow256, read_le};
use crate::error::{
    error_views, internal_views, lemma_error_list_view, merged_errors, parsing_failure_text,
    specification_failure_text, ElucidatorError, ElucidatorErrorV, InternalError, InternalErrorV,
};
use crate::parsing::{get_metadataspec, spec_metadataspec};
use crate::text::{chars_of, find_char, first_index, lemma_first_index_props, push_char, push_str};
use crate::validating::{
    lemma_parsed_spec_consistent, spec_validate_memberspec, spec_validate_metadataspec, validate_all,
    validate_metadataspec,
};
use crate::member::dtype::Dtype;
use crate::member::member_specification::{legal_sizing, member_spec_views, member_text, MemberSpecification, MemberV};
use crate::member::sizing::Sizing;
use crate::util::Buffer;
use crate::representable::Representable;
use crate::value::{
    narrow_i16, narrow_i32, narrow_i64, narrow_i8, narrow_u16, narrow_u32, narrow_u64, narrow_u8,
    buffer_of, decode_value, in_range, is_signed_int, text_bytes, unsigned_repr, value_bytes, values_bytes, width,
    DataValue, DataValueV,
};
use vstd::utf8::encode_utf8;

verus! {

/// Representation of a designation's specification: its members, in order.
#[derive(Debug, PartialEq, Clone)]
pub struct DesignationSpecification {
    members: Vec<MemberSpecification>,
}

impl View for DesignationSpecification {
    type V = Seq<MemberV>;

    closed spec fn view(&self) -> Seq<MemberV> {
        member_spec_views(self.members@)
    }
}

/// No string member is an array.
pub open spec fn members_legal(ms: Seq<MemberV>) -> bool {
    forall|k: int| 0 <= k < ms.len() ==> legal_sizing((#[trigger] ms[k]).sizing, ms[k].dtype)
}

/// No two members share an identifier.
pub open spec fn identifiers_distinct(ms: Seq<MemberV>) -> bool {
    forall|i: int, j: int| 0 <= i < j < ms.len() ==> (#[trigger] ms[i]).identifier != (#[trigger] ms[j]).identifier
}

/// What a designation's members keep: no string array, and no identifier twice.
pub open spec fn designation_wf(ms: Seq<MemberV>) -> bool {
    members_legal(ms) && identifiers_distinct(ms)
}

impl DesignationSpecification {
    pub open spec fn wf(&self) -> bool {
        designation_wf(self@)
    }

    /// The designation with these members, when no string member is an array and no identifier
    /// occurs twice; `None` otherwise.
    pub fn from_members(members: Vec<MemberSpecification>) -> (r: Option<Self>)
        ensures
            r is Some <==> designation_wf(member_spec_views(members@)),
            r matches Some(d) ==> d@ == member_spec_views(members@),
    {
        let ghost ms = member_spec_views(members@);
        let n = members.len();
        let mut i: usize = 0;
        while i < n
            invariant
                n == members@.len(),
                ms == member_spec_views(members@),
                i <= n,
                forall|k: int| 0 <= k < i ==> legal_sizing((#[trigger] ms[k]).sizing, ms[k].dtype),
                forall|k: int, l: int| 0 <= k < l < i ==> (#[trigger] ms[k]).identifier != (#[trigger] ms[l]).identifier,
            decreases n - i,
        {
            let legal = match (members[i].dtype(), members[i].sizing()) {
                (Dtype::Str, Sizing::Fixed(_)) | (Dtype::Str, Sizing::Dynamic) => false,
                _ => true,
            };
            if !legal {
                assert(!legal_sizing(ms[i as int].sizing, ms[i as int].dtype));
                return None;
            }
            let mut j: usize = 0;
            while j < i
                invariant
                    n == members@.len(),
                    ms == member_spec_views(members@),
                    j <= i < n,
                    forall|k: int| 0 <= k < j ==> (#[trigger] ms[k]).identifier != ms[i as int].identifier,
                decreases i - j,
            {
                if members[j].same_identifier(&members[i]) {
                    assert(ms[j as int].identifier == ms[i as int].identifier);
                    return None;
                }
                j = j + 1;
            }
            i = i + 1;
        }
        Some(DesignationSpecification { members })
    }

    /// The members, in order.
    pub fn members(&self) -> (r: &Vec<MemberSpecification>)
        ensures
            member_spec_views(r@) == self@,
    {
        &self.members
    }
}

/// A count from a buffer as a `usize` (saturating).
pub open spec fn clamp_usize(n: nat) -> nat {
    if n <= usize::MAX {
        n
    } else {
        usize::MAX as nat
    }
}

/// The bytes that `count` values of `w` bytes take (saturating at `usize::MAX`).
pub open spec fn needed(count: nat, w: nat) -> nat {
    if count * w <= usize::MAX {
        count * w
    } else {
        usize::MAX as nat
    }
}

/// The values written one after another in `b`, each in `width(d)` bytes.
pub open spec fn decode_values(d: Dtype, b: Seq<u8>) -> Seq<int>
    decreases b.len(),
{
    if width(d) == 0 || b.len() < width(d) {
        Seq::empty()
    } else {
        seq![decode_value(d, b.take(width(d) as int))] + decode_values(d, b.skip(width(d) as int))
    }
}

pub open spec fn sizing_error(expected: nat, found: nat) -> ElucidatorErrorV {
    ElucidatorErrorV::BufferSizing { expected: expected as usize, found: found as usize }
}

/// Reading `n` bytes at `pos`: the bytes, or the error saying how many were wanted and left.
pub open spec fn grab_bytes(buf: Seq<u8>, pos: nat, n: nat) -> Result<Seq<u8>, ElucidatorErrorV> {
    if pos + n <= buf.len() {
        Ok(buf.subrange(pos as int, (pos + n) as int))
    } else {
        Err(sizing_error(n, (buf.len() - pos) as nat))
    }
}

/// Reading a string at `pos`: its byte count, then that many bytes of UTF-8.
pub open spec fn read_text(buf: Seq<u8>, pos: nat) -> Result<(DataValueV, nat), ElucidatorErrorV> {
    match grab_bytes(buf, pos, 8) {
        Err(e) => Err(e),
        Ok(lb) => {
            let n = clamp_usize(le_value(lb));
            match grab_bytes(buf, pos + 8, n) {
                Err(e) => Err(e),
                Ok(bytes) => if valid_utf8(bytes) {
                    Ok((DataValueV::Text(decode_utf8(bytes)), pos + 8 + n))
                } else {
                    Err(ElucidatorErrorV::FromUtf8)
                },
            }
        },
    }
}

/// Reading one number at `pos`.
pub open spec fn read_scalar(d: Dtype, buf: Seq<u8>, pos: nat) -> Result<(DataValueV, nat), ElucidatorErrorV> {
    match grab_bytes(buf, pos, width(d)) {
        Err(e) => Err(e),
        Ok(b) => Ok((DataValueV::Scalar(d, decode_value(d, b)), pos + width(d))),
    }
}

/// Reading `count` numbers at `pos`.
pub open spec fn read_array(d: Dtype, count: nat, buf: Seq<u8>, pos: nat) -> Result<(DataValueV, nat), ElucidatorErrorV> {
    let k = needed(count, width(d));
    match grab_bytes(buf, pos, k) {
        Err(e) => Err(e),
        Ok(b) => Ok((DataValueV::Array(d, decode_values(d, b)), pos + k)),
    }
}

/// Reading the value of a member at `pos`: a singleton, a fixed array, or a dynamic array
/// preceded by its count as a `u64`.
pub open spec fn read_member(m: MemberV, buf: Seq<u8>, pos: nat) -> Result<(DataValueV, nat), ElucidatorErrorV> {
    match m.sizing {
        Sizing::Singleton => if m.dtype == Dtype::Str {
            read_text(buf, pos)
        } else {
            read_scalar(m.dtype, buf, pos)
        },
        Sizing::Fixed(n) => read_array(m.dtype, clamp_usize(n as nat), buf, pos),
        Sizing::Dynamic => match grab_bytes(buf, pos, 8) {
            Err(e) => Err(e),
            Ok(lb) => read_array(m.dtype, clamp_usize(le_value(lb)), buf, pos + 8),
        },
    }
}

/// Reading the members in order from `pos`: each identifier with its value, or the first error.
pub open spec fn interpret_from(ms: Seq<MemberV>, buf: Seq<u8>, pos: nat) -> Result<
    Seq<(Seq<char>, DataValueV)>,
    ElucidatorErrorV,
>
    decreases ms.len(),
{
    if ms.len() == 0 {
        Ok(Seq::empty())
    } else {
        match read_member(ms[0], buf, pos) {
            Err(e) => Err(e),
            Ok((v, p)) => match interpret_from(ms.drop_first(), buf, p) {
                Err(e) => Err(e),
                Ok(rest) => Ok(seq![(ms[0].identifier, v)] + rest),
            },
        }
    }
}

/// Calls `String::from_utf8`, which succeeds exactly when the bytes are valid UTF-8, and then
/// holds the characters they encode. Of the error nothing is said: std's `FromUtf8Error` is
/// opaque here, so that it carries these bytes is left unstated.
#[verifier::external_body]
fn string_from_utf8(bytes: Vec<u8>) -> (r: Result<String, std::string::FromUtf8Error>)
    ensures
        r is Ok <==> valid_utf8(bytes@),
        r matches Ok(s) ==> s@ == decode_utf8(bytes@),
{
    String::from_utf8(bytes)
}

fn bytes_needed(count: usize, w: usize) -> (r: usize)
    ensures
        r == needed(count as nat, w as nat),
{
    match count.checked_mul(w) {
        Some(b) => b,
        None => usize::MAX,
    }
}

fn to_usize(n: u64) -> (r: usize)
    ensures
        r == clamp_usize(n as nat),
{
    if n as u128 <= usize::MAX as u128 {
        n as usize
    } else {
        usize::MAX
    }
}

fn dtype_width(d: Dtype) -> (w: usize)
    ensures
        w == width(d),
{
    match d {
        Dtype::Byte | Dtype::SignedInteger8 => 1,
        Dtype::UnsignedInteger16 | Dtype::SignedInteger16 => 2,
        Dtype::UnsignedInteger32 | Dtype::SignedInteger32 | Dtype::Float32 => 4,
        _ => 8,
    }
}

/// The value of the `w` little-endian bytes at `from`, for data type `d`.
fn decode_at(d: Dtype, b: &[u8], from: usize) -> (r: i128)
    requires
        d != Dtype::Str,
        from + width(d) <= b@.len(),
    ensures
        r as int == decode_value(d, b@.subrange(from as int, from + width(d))),
        in_range(d, r as int),
{
    proof {
        lemma_pow256_values();
        crate::bytes::lemma_le_value_bound(b@.subrange(from as int, from + width(d)));
    }
    let w = dtype_width(d);
    let u = read_le(b, from, w);
    let signed = match d {
        Dtype::SignedInteger8 | Dtype::SignedInteger16 | Dtype::SignedInteger32 | Dtype::SignedInteger64 => true,
        _ => false,
    };
    let p: u128 = if w == 8 {
        0x1_0000_0000_0000_0000
    } else if w == 4 {
        0x1_0000_0000
    } else if w == 2 {
        0x1_0000
    } else {
        0x100
    };
    assert(p == pow256(width(d)));
    if signed && (u as u128) >= p / 2 {
        (u as i128) - (p as i128)
    } else {
        u as i128
    }
}

/// The values written one after another in `b[from..]`.
fn decode_all(d: Dtype, b: &[u8]) -> (r: Vec<i128>)
    requires
        d != Dtype::Str,
    ensures
        r@.map_values(|x: i128| x as int) == decode_values(d, b@),
        forall|k: int| 0 <= k < r@.len() ==> in_range(d, #[trigger] r@[k] as int),
{
    let w = dtype_width(d);
    let mut out: Vec<i128> = Vec::new();
    let mut pos: usize = 0;
    let len = b.len();
    proof {
        assert(b@.skip(0) =~= b@);
        assert(out@.map_values(|x: i128| x as int) + decode_values(d, b@) =~= decode_values(d, b@));
    }
    while w <= len - pos
        invariant
            w == width(d),
            1 <= w <= 8,
            len == b@.len(),
            pos <= len,
            d != Dtype::Str,
            out@.map_values(|x: i128| x as int) + decode_values(d, b@.skip(pos as int)) == decode_values(d, b@),
            forall|k: int| 0 <= k < out@.len() ==> in_range(d, #[trigger] out@[k] as int),
        decreases len - pos,
    {
        let x = decode_at(d, b, pos);
        let ghost rest = b@.skip(pos as int);
        let ghost before = out@.map_values(|x: i128| x as int);
        proof {
            assert(rest.take(w as int) =~= b@.subrange(pos as int, pos + w));
            assert(rest.skip(w as int) =~= b@.skip(pos + w));
        }
        out.push(x);
        proof {
            assert(out@.map_values(|x: i128| x as int) =~= before.push(x as int));
            assert(decode_values(d, rest) == seq![x as int] + decode_values(d, b@.skip(pos + w)));
            assert(before.push(x as int) + decode_values(d, b@.skip(pos + w)) =~= before + decode_values(d, rest));
        }
        pos = pos + w;
    }
    proof {
        assert(decode_values(d, b@.skip(pos as int)) == Seq::<int>::empty());
        assert(out@.map_values(|x: i128| x as int) + Seq::<int>::empty() =~= out@.map_values(|x: i128| x as int));
    }
    out
}

/// The value `x` of data type `d` (a float by its bits).
fn scalar_value(d: Dtype, x: i128) -> (r: DataValue)
    requires
        d != Dtype::Str,
        in_range(d, x as int),
    ensures
        r@ == DataValueV::Scalar(d, x as int),
{
    proof {
        lemma_pow256_values();
    }
    match d {
        Dtype::Byte => DataValue::Byte(x as u8),
        Dtype::UnsignedInteger16 => DataValue::UnsignedInteger16(x as u16),
        Dtype::UnsignedInteger32 => DataValue::UnsignedInteger32(x as u32),
        Dtype::UnsignedInteger64 => DataValue::UnsignedInteger64(x as u64),
        Dtype::SignedInteger8 => DataValue::SignedInteger8(x as i8),
        Dtype::SignedInteger16 => DataValue::SignedInteger16(x as i16),
        Dtype::SignedInteger32 => DataValue::SignedInteger32(x as i32),
        Dtype::SignedInteger64 => DataValue::SignedInteger64(x as i64),
        Dtype::Float32 => DataValue::Float32(x as u32),
        Dtype::Float64 => DataValue::Float64(x as u64),
        Dtype::Str => DataValue::Str(String::new()),
    }
}

/// The array `xs` of data type `d` (floats by their bits).
fn array_value(d: Dtype, xs: &Vec<i128>) -> (r: DataValue)
    requires
        d != Dtype::Str,
        forall|k: int| 0 <= k < xs@.len() ==> in_range(d, #[trigger] xs@[k] as int),
    ensures
        r@ == DataValueV::Array(d, xs@.map_values(|x: i128| x as int)),
{
    proof {
        lemma_pow256_values();
    }
    match d {
        Dtype::Byte => DataValue::ByteArray(narrow_u8(xs)),
        Dtype::UnsignedInteger16 => DataValue::UnsignedInteger16Array(narrow_u16(xs)),
        Dtype::UnsignedInteger32 => DataValue::UnsignedInteger32Array(narrow_u32(xs)),
        Dtype::UnsignedInteger64 => DataValue::UnsignedInteger64Array(narrow_u64(xs)),
        Dtype::SignedInteger8 => DataValue::SignedInteger8Array(narrow_i8(xs)),
        Dtype::SignedInteger16 => DataValue::SignedInteger16Array(narrow_i16(xs)),
        Dtype::SignedInteger32 => DataValue::SignedInteger32Array(narrow_i32(xs)),
        Dtype::SignedInteger64 => DataValue::SignedInteger64Array(narrow_i64(xs)),
        Dtype::Float32 => DataValue::Float32Array(narrow_u32(xs)),
        Dtype::Float64 => DataValue::Float64Array(narrow_u64(xs)),
        Dtype::Str => DataValue::Str(String::new()),
    }
}

/// Reads a string: its byte count as a `u64`, then that many bytes of UTF-8.
fn get_string_from_buf(buffer: &mut Buffer) -> (r: Result<String, ElucidatorError>)
    requires
        old(buffer).wf(),
    ensures
        final(buffer).wf(),
        final(buffer).data() == old(buffer).data(),
        r matches Ok(s) ==> read_text(old(buffer).data(), old(buffer).position()) == Ok::<
            (DataValueV, nat),
            ElucidatorErrorV,
        >((DataValueV::Text(s@), final(buffer).position())),
        r matches Err(e) ==> read_text(old(buffer).data(), old(buffer).position()) == Err::<
            (DataValueV, nat),
            ElucidatorErrorV,
        >(e@),
{
    let lb = buffer.grab(8)?;
    let size = read_le(lb.as_slice(), 0, 8);
    proof {
        assert(lb@.subrange(0, 8) =~= lb@);
    }
    let n = to_usize(size);
    let databuf = buffer.grab(n)?;
    match string_from_utf8(databuf) {
        Ok(s) => Ok(s),
        Err(e) => Err(ElucidatorError::FromUtf8 { source: e }),
    }
}

/// What reading a singleton of data type `d` at `pos` gives.
pub open spec fn read_singleton(d: Dtype, buf: Seq<u8>, pos: nat) -> Result<(DataValueV, nat), ElucidatorErrorV> {
    if d == Dtype::Str {
        read_text(buf, pos)
    } else {
        read_scalar(d, buf, pos)
    }
}

/// Reads one value of data type `d`.
fn get_singleton_from_buf(buffer: &mut Buffer, dt: Dtype) -> (r: Result<DataValue, ElucidatorError>)
    requires
        old(buffer).wf(),
    ensures
        final(buffer).wf(),
        final(buffer).data() == old(buffer).data(),
        r matches Ok(v) ==> read_singleton(dt, old(buffer).data(), old(buffer).position()) == Ok::<
            (DataValueV, nat),
            ElucidatorErrorV,
        >((v@, final(buffer).position())),
        r matches Err(e) ==> read_singleton(dt, old(buffer).data(), old(buffer).position()) == Err::<
            (DataValueV, nat),
            ElucidatorErrorV,
        >(e@),
{
    if dt == Dtype::Str {
        let s = get_string_from_buf(buffer)?;
        Ok(DataValue::Str(s))
    } else {
        let w = dtype_width(dt);
        let buf = buffer.grab(w)?;
        let x = decode_at(dt, buf.as_slice(), 0);
        proof {
            assert(buf@.subrange(0, width(dt) as int) =~= buf@);
        }
        Ok(scalar_value(dt, x))
    }
}

/// Reads `items_to_read` values of data type `d`, one after another.
fn get_array_from_buf(buffer: &mut Buffer, dt: Dtype, items_to_read: usize) -> (r: Result<DataValue, ElucidatorError>)
    requires
        old(buffer).wf(),
        dt != Dtype::Str,
    ensures
        final(buffer).wf(),
        final(buffer).data() == old(buffer).data(),
        r matches Ok(v) ==> read_array(dt, items_to_read as nat, old(buffer).data(), old(buffer).position())
            == Ok::<(DataValueV, nat), ElucidatorErrorV>((v@, final(buffer).position())),
        r matches Err(e) ==> read_array(dt, items_to_read as nat, old(buffer).data(), old(buffer).position())
            == Err::<(DataValueV, nat), ElucidatorErrorV>(e@),
{
    let w = dtype_width(dt);
    let k = bytes_needed(items_to_read, w);
    let buf = buffer.grab(k)?;
    let xs = decode_all(dt, buf.as_slice());
    Ok(array_value(dt, &xs))
}

/// Reads the value of one member.
fn get_member_from_buf(buffer: &mut Buffer, member: &MemberSpecification) -> (r: Result<DataValue, ElucidatorError>)
    requires
        old(buffer).wf(),
        legal_sizing(member@.sizing, member@.dtype),
    ensures
        final(buffer).wf(),
        final(buffer).data() == old(buffer).data(),
        r matches Ok(v) ==> read_member(member@, old(buffer).data(), old(buffer).position()) == Ok::<
            (DataValueV, nat),
            ElucidatorErrorV,
        >((v@, final(buffer).position())),
        r matches Err(e) ==> read_member(member@, old(buffer).data(), old(buffer).position()) == Err::<
            (DataValueV, nat),
            ElucidatorErrorV,
        >(e@),
{
    let dt = member.dtype();
    match member.sizing() {
        Sizing::Singleton => get_singleton_from_buf(buffer, dt),
        Sizing::Fixed(n) => get_array_from_buf(buffer, dt, to_usize(n)),
        Sizing::Dynamic => {
            let lb = buffer.grab(8)?;
            let n = read_le(lb.as_slice(), 0, 8);
            proof {
                assert(lb@.subrange(0, 8) =~= lb@);
            }
            get_array_from_buf(buffer, dt, to_usize(n))
        },
    }
}

pub open spec fn named_values<'a>(v: Seq<(&'a str, DataValue)>) -> Seq<(Seq<char>, DataValueV)> {
    Seq::new(v.len(), |i: int| (v[i].0@, v[i].1@))
}

/// `out` followed by what `r` read, or `r`'s error.
pub open spec fn after(out: Seq<(Seq<char>, DataValueV)>, r: Result<Seq<(Seq<char>, DataValueV)>, ElucidatorErrorV>) -> Result<
    Seq<(Seq<char>, DataValueV)>,
    ElucidatorErrorV,
> {
    match r {
        Ok(rest) => Ok(out + rest),
        Err(e) => Err(e),
    }
}

impl DesignationSpecification {
    /// Interprets a buffer by the members, in order: each member's identifier with its value,
    /// which can be inspected and converted through `Representable`.
    pub fn interpret<'a>(&'a self, buffer: &[u8]) -> (r: Result<Vec<(&'a str, DataValue)>, ElucidatorError>)
        requires
            self.wf(),
        ensures
            r matches Ok(v) ==> interpret_from(self@, buffer@, 0) == Ok::<
                Seq<(Seq<char>, DataValueV)>,
                ElucidatorErrorV,
            >(named_values(v@)),
            r matches Err(e) ==> interpret_from(self@, buffer@, 0) == Err::<
                Seq<(Seq<char>, DataValueV)>,
                ElucidatorErrorV,
            >(e@),
    {
        self.interpret_enum(buffer)
    }

    /// Interprets a buffer by the members, in order: each member's identifier with its value.
    pub fn interpret_enum<'a>(&'a self, buffer: &[u8]) -> (r: Result<Vec<(&'a str, DataValue)>, ElucidatorError>)
        requires
            self.wf(),
        ensures
            r matches Ok(v) ==> interpret_from(self@, buffer@, 0) == Ok::<
                Seq<(Seq<char>, DataValueV)>,
                ElucidatorErrorV,
            >(named_values(v@)),
            r matches Err(e) ==> interpret_from(self@, buffer@, 0) == Err::<
                Seq<(Seq<char>, DataValueV)>,
                ElucidatorErrorV,
            >(e@),
    {
        let ghost ms = self@;
        let mut buf = Buffer::new(buffer);
        let mut out: Vec<(&'a str, DataValue)> = Vec::new();
        let mut i: usize = 0;
        proof {
            assert(ms.skip(0) =~= ms);
            assert(named_values(out@) + Seq::<(Seq<char>, DataValueV)>::empty() =~= Seq::<(Seq<char>, DataValueV)>::empty());
        }
        while i < self.members.len()
            invariant
                i <= self.members@.len(),
                ms == self@,
                members_legal(ms),
                buf.wf(),
                buf.data() == buffer@,
                interpret_from(ms, buffer@, 0) == after(named_values(out@), interpret_from(ms.skip(i as int), buffer@, buf.position())),
            decreases self.members.len() - i,
        {
            let member = &self.members[i];
            assert(ms[i as int] == member@);
            assert(ms.skip(i as int)[0] == ms[i as int]);
            assert(ms.skip(i as int).drop_first() =~= ms.skip(i + 1));
            let ghost pos = buf.position();
            match get_member_from_buf(&mut buf, member) {
                Ok(v) => {
                    let ghost before = named_values(out@);
                    let ghost rest = interpret_from(ms.skip(i + 1), buffer@, buf.position());
                    out.push((member.identifier(), v));
                    proof {
                        assert(named_values(out@) =~= before.push((member@.identifier, v@)));
                        match rest {
                            Ok(rs) => {
                                assert(before + (seq![(member@.identifier, v@)] + rs) =~= named_values(out@) + rs);
                            },
                            Err(_) => {},
                        }
                    }
                },
                Err(e) => {
                    return Err(e);
                },
            }
            i = i + 1;
        }
        proof {
            assert(ms.skip(i as int).len() == 0);
            assert(named_values(out@) + Seq::<(Seq<char>, DataValueV)>::empty() =~= named_values(out@));
        }
        Ok(out)
    }
}

/// A value fits a member: the member's data type; one number or a string for a singleton, an
/// array of the declared length for a fixed member, an array of any length for a dynamic one.
pub open spec fn fits(m: MemberV, v: DataValueV) -> bool {
    match v {
        DataValueV::Scalar(d, x) => m.sizing == Sizing::Singleton && m.dtype == d && d != Dtype::Str
            && in_range(d, x),
        DataValueV::Text(_) => m.sizing == Sizing::Singleton && m.dtype == Dtype::Str,
        DataValueV::Array(d, xs) => m.dtype == d && d != Dtype::Str && (forall|k: int|
            0 <= k < xs.len() ==> in_range(d, #[trigger] xs[k])) && match m.sizing {
            Sizing::Fixed(n) => xs.len() == n,
            Sizing::Dynamic => true,
            Sizing::Singleton => false,
        },
    }
}

pub open spec fn array_len(v: DataValueV) -> nat {
    match v {
        DataValueV::Array(_, xs) => xs.len(),
        _ => 0,
    }
}

/// The bytes that store a member's value: for a dynamic array, its count as a `u64` first.
pub open spec fn blob(m: MemberV, v: DataValueV) -> Seq<u8> {
    if m.sizing == Sizing::Dynamic {
        le_bytes(array_len(v), 8) + buffer_of(v)
    } else {
        buffer_of(v)
    }
}

/// The stored values of the members, one after another.
pub open spec fn blobs(ms: Seq<MemberV>, vs: Seq<DataValueV>) -> Seq<u8>
    decreases ms.len(),
{
    if ms.len() == 0 || vs.len() == 0 {
        Seq::empty()
    } else {
        blob(ms[0], vs[0]) + blobs(ms.drop_first(), vs.drop_first())
    }
}

/// Each member's identifier with its value.
pub open spec fn zip_names(ms: Seq<MemberV>, vs: Seq<DataValueV>) -> Seq<(Seq<char>, DataValueV)> {
    Seq::new(ms.len(), |i: int| (ms[i].identifier, vs[i]))
}

#[verifier::spinoff_prover]
#[verifier::rlimit(40)]
proof fn lemma_grab_middle(pre: Seq<u8>, x: Seq<u8>, post: Seq<u8>)
    ensures
        grab_bytes(pre + x + post, pre.len(), x.len()) == Ok::<Seq<u8>, ElucidatorErrorV>(x),
{
    assert((pre + x + post).subrange(pre.len() as int, (pre.len() + x.len()) as int) =~= x);
}

#[verifier::spinoff_prover]
#[verifier::rlimit(40)]
proof fn lemma_decode_value_bytes(d: Dtype, x: int)
    requires
        d != Dtype::Str,
        in_range(d, x),
    ensures
        decode_value(d, value_bytes(d, x)) == x,
        value_bytes(d, x).len() == width(d),
{
    lemma_pow256_values();
    lemma_le_round_trip(unsigned_repr(d, x), width(d));
}

#[verifier::spinoff_prover]
#[verifier::rlimit(40)]
proof fn lemma_values_bytes(d: Dtype, xs: Seq<int>)
    requires
        d != Dtype::Str,
        forall|k: int| 0 <= k < xs.len() ==> in_range(d, #[trigger] xs[k]),
    ensures
        decode_values(d, values_bytes(d, xs)) == xs,
        values_bytes(d, xs).len() == xs.len() * width(d),
    decreases xs.len(),
{
    if xs.len() > 0 {
        let rest = xs.drop_first();
        assert forall|k: int| 0 <= k < rest.len() implies in_range(d, #[trigger] rest[k]) by {
            assert(rest[k] == xs[k + 1]);
        }
        lemma_values_bytes(d, rest);
        lemma_decode_value_bytes(d, xs[0]);
        let b = values_bytes(d, xs);
        let w = width(d);
        assert(b.take(w as int) =~= value_bytes(d, xs[0]));
        assert(b.skip(w as int) =~= values_bytes(d, rest));
        assert(xs =~= seq![xs[0]] + rest);
        assert(rest.len() * w + w == xs.len() * w) by (nonlinear_arith)
            requires
                rest.len() + 1 == xs.len(),
        ;
    } else {
        assert(decode_values(d, values_bytes(d, xs)) =~= xs);
    }
}

#[verifier::spinoff_prover]
#[verifier::rlimit(40)]
proof fn lemma_read_member_blob(m: MemberV, v: DataValueV, pre: Seq<u8>, post: Seq<u8>)
    requires
        fits(m, v),
        (pre + blob(m, v) + post).len() <= usize::MAX,
    ensures
        read_member(m, pre + blob(m, v) + post, pre.len()) == Ok::<(DataValueV, nat), ElucidatorErrorV>(
            (v, pre.len() + blob(m, v).len()),
        ),
{
    lemma_pow256_values();
    let buf = pre + blob(m, v) + post;
    match v {
        DataValueV::Scalar(d, x) => {
            lemma_decode_value_bytes(d, x);
            lemma_grab_middle(pre, value_bytes(d, x), post);
        },
        DataValueV::Text(t) => {
            let e = encode_utf8(t);
            lemma_le_round_trip(e.len(), 8);
            vstd::utf8::encode_utf8_valid_utf8(t);
            vstd::utf8::encode_utf8_decode_utf8(t);
            let lb = le_bytes(e.len(), 8);
            assert(buf == pre + lb + (e + post));
            lemma_grab_middle(pre, lb, e + post);
            assert(buf == (pre + lb) + e + post);
            lemma_grab_middle(pre + lb, e, post);
        },
        DataValueV::Array(d, xs) => {
            lemma_values_bytes(d, xs);
            let vb = values_bytes(d, xs);
            assert(xs.len() <= xs.len() * width(d)) by (nonlinear_arith)
                requires
                    width(d) >= 1,
            ;
            if m.sizing == Sizing::Dynamic {
                let lb = le_bytes(xs.len(), 8);
                lemma_le_round_trip(xs.len(), 8);
                assert(buf == pre + lb + (vb + post));
                lemma_grab_middle(pre, lb, vb + post);
                assert(buf == (pre + lb) + vb + post);
                lemma_grab_middle(pre + lb, vb, post);
            } else {
                lemma_grab_middle(pre, vb, post);
            }
        },
    }
}

/// Reading from `pre.len()` the stored values of members that they fit gives back each
/// identifier with its value, whatever precedes or follows them.
#[verifier::spinoff_prover]
#[verifier::rlimit(40)]
pub proof fn lemma_interpret_from_blobs(ms: Seq<MemberV>, vs: Seq<DataValueV>, pre: Seq<u8>, tail: Seq<u8>)
    requires
        ms.len() == vs.len(),
        forall|k: int| 0 <= k < ms.len() ==> fits(#[trigger] ms[k], vs[k]),
        (pre + blobs(ms, vs) + tail).len() <= usize::MAX,
    ensures
        interpret_from(ms, pre + blobs(ms, vs) + tail, pre.len()) == Ok::<
            Seq<(Seq<char>, DataValueV)>,
            ElucidatorErrorV,
        >(zip_names(ms, vs)),
    decreases ms.len(),
{
    if ms.len() == 0 {
        assert(zip_names(ms, vs) =~= Seq::<(Seq<char>, DataValueV)>::empty());
    } else {
        let b0 = blob(ms[0], vs[0]);
        let rest = blobs(ms.drop_first(), vs.drop_first());
        assert(fits(ms[0], vs[0]));
        assert(pre + blobs(ms, vs) + tail == pre + b0 + (rest + tail));
        lemma_read_member_blob(ms[0], vs[0], pre, rest + tail);
        assert forall|k: int| 0 <= k < ms.drop_first().len() implies fits(
            #[trigger] ms.drop_first()[k],
            vs.drop_first()[k],
        ) by {
            assert(ms.drop_first()[k] == ms[k + 1]);
            assert(vs.drop_first()[k] == vs[k + 1]);
            assert(fits(ms[k + 1], vs[k + 1]));
        }
        assert(pre + blobs(ms, vs) + tail == (pre + b0) + rest + tail);
        lemma_interpret_from_blobs(ms.drop_first(), vs.drop_first(), pre + b0, tail);
        assert(zip_names(ms, vs) =~= seq![(ms[0].identifier, vs[0])] + zip_names(ms.drop_first(), vs.drop_first()));
    }
}

/// Law: interpreting the stored values of all members (followed by anything) gives back each
/// member's identifier with its value, in order.
#[verifier::spinoff_prover]
#[verifier::rlimit(40)]
pub proof fn lemma_interpret_round_trip(ms: Seq<MemberV>, vs: Seq<DataValueV>, tail: Seq<u8>)
    requires
        ms.len() == vs.len(),
        forall|k: int| 0 <= k < ms.len() ==> fits(#[trigger] ms[k], vs[k]),
        (blobs(ms, vs) + tail).len() <= usize::MAX,
    ensures
        interpret_from(ms, blobs(ms, vs) + tail, 0) == Ok::<Seq<(Seq<char>, DataValueV)>, ElucidatorErrorV>(
            zip_names(ms, vs),
        ),
{
    let pre = Seq::<u8>::empty();
    assert(pre + blobs(ms, vs) + tail =~= blobs(ms, vs) + tail);
    lemma_interpret_from_blobs(ms, vs, pre, tail);
}

/// Reading a member from fewer bytes than its stored value takes fails for want of bytes.
#[verifier::spinoff_prover]
#[verifier::rlimit(40)]
proof fn lemma_read_member_short(m: MemberV, v: DataValueV, pre: Seq<u8>, k: int)
    requires
        fits(m, v),
        (pre + blob(m, v)).len() <= usize::MAX,
        0 <= k < blob(m, v).len(),
    ensures
        read_member(m, pre + blob(m, v).take(k), pre.len()) matches Err(e) && e is BufferSizing,
{
    match v {
        DataValueV::Scalar(d, x) => lemma_read_scalar_short(m, d, x, pre, k),
        DataValueV::Text(t) => lemma_read_text_short(m, t, pre, k),
        DataValueV::Array(d, xs) => lemma_read_array_short(m, d, xs, pre, k),
    }
}

#[verifier::spinoff_prover]
#[verifier::rlimit(40)]
proof fn lemma_read_scalar_short(m: MemberV, d: Dtype, x: int, pre: Seq<u8>, k: int)
    requires
        fits(m, DataValueV::Scalar(d, x)),
        0 <= k < blob(m, DataValueV::Scalar(d, x)).len(),
    ensures
        read_member(m, pre + blob(m, DataValueV::Scalar(d, x)).take(k), pre.len()) matches Err(e)
            && e is BufferSizing,
{
    lemma_pow256_values();
    lemma_decode_value_bytes(d, x);
    let buf = pre + blob(m, DataValueV::Scalar(d, x)).take(k);
    let pos = pre.len();
    assert(buf.len() == pos + k);
    assert(read_member(m, buf, pos) == read_scalar(d, buf, pos));
}

#[verifier::spinoff_prover]
#[verifier::rlimit(40)]
proof fn lemma_read_text_short(m: MemberV, t: Seq<char>, pre: Seq<u8>, k: int)
    requires
        fits(m, DataValueV::Text(t)),
        (pre + blob(m, DataValueV::Text(t))).len() <= usize::MAX,
        0 <= k < blob(m, DataValueV::Text(t)).len(),
    ensures
        read_member(m, pre + blob(m, DataValueV::Text(t)).take(k), pre.len()) matches Err(e) && e is BufferSizing,
{
    lemma_pow256_values();
    let buf = pre + blob(m, DataValueV::Text(t)).take(k);
    let e = encode_utf8(t);
    lemma_le_round_trip(e.len(), 8);
    let lb = le_bytes(e.len(), 8);
    if k >= 8 {
        assert(buf =~= pre + lb + e.take(k - 8));
        lemma_grab_middle(pre, lb, e.take(k - 8));
    }
}

#[verifier::spinoff_prover]
#[verifier::rlimit(40)]
proof fn lemma_read_array_short(m: MemberV, d: Dtype, xs: Seq<int>, pre: Seq<u8>, k: int)
    requires
        fits(m, DataValueV::Array(d, xs)),
        (pre + blob(m, DataValueV::Array(d, xs))).len() <= usize::MAX,
        0 <= k < blob(m, DataValueV::Array(d, xs)).len(),
    ensures
        read_member(m, pre + blob(m, DataValueV::Array(d, xs)).take(k), pre.len()) matches Err(e)
            && e is BufferSizing,
{
    lemma_pow256_values();
    let buf = pre + blob(m, DataValueV::Array(d, xs)).take(k);
    lemma_values_bytes(d, xs);
    let vb = values_bytes(d, xs);
    let pos = pre.len();
    assert(xs.len() <= xs.len() * width(d)) by (nonlinear_arith)
        requires
            width(d) >= 1,
    ;
    assert(needed(xs.len(), width(d)) == vb.len());
    assert(buf.len() == pos + k);
    if m.sizing != Sizing::Dynamic {
        assert(clamp_usize(xs.len()) == xs.len());
        assert(read_member(m, buf, pos) == read_array(d, xs.len(), buf, pos));
    } else {
        let lb = le_bytes(xs.len(), 8);
        lemma_le_round_trip(xs.len(), 8);
        if k >= 8 {
            assert(buf =~= pre + lb + vb.take(k - 8));
            lemma_grab_middle(pre, lb, vb.take(k - 8));
        }
    }
}

#[verifier::spinoff_prover]
#[verifier::rlimit(40)]
proof fn lemma_interpret_from_short(ms: Seq<MemberV>, vs: Seq<DataValueV>, pre: Seq<u8>, k: int)
    requires
        ms.len() == vs.len(),
        forall|j: int| 0 <= j < ms.len() ==> fits(#[trigger] ms[j], vs[j]),
        (pre + blobs(ms, vs)).len() <= usize::MAX,
        0 <= k < blobs(ms, vs).len(),
    ensures
        interpret_from(ms, pre + blobs(ms, vs).take(k), pre.len()) matches Err(e) && e is BufferSizing,
    decreases ms.len(),
{
    let b0 = blob(ms[0], vs[0]);
    let rest = blobs(ms.drop_first(), vs.drop_first());
    assert(blobs(ms, vs) == b0 + rest);
    assert(fits(ms[0], vs[0]));
    if k < b0.len() {
        assert(blobs(ms, vs).take(k) =~= b0.take(k));
        lemma_read_member_short(ms[0], vs[0], pre, k);
    } else {
        let post = rest.take(k - b0.len());
        assert(pre + blobs(ms, vs).take(k) =~= pre + b0 + post);
        lemma_read_member_blob(ms[0], vs[0], pre, post);
        assert forall|j: int| 0 <= j < ms.drop_first().len() implies fits(
            #[trigger] ms.drop_first()[j],
            vs.drop_first()[j],
        ) by {
            assert(ms.drop_first()[j] == ms[j + 1]);
            assert(vs.drop_first()[j] == vs[j + 1]);
            assert(fits(ms[j + 1], vs[j + 1]));
        }
        assert(pre + b0 + post =~= (pre + b0) + rest.take(k - b0.len()));
        assert((pre + b0) + rest =~= pre + blobs(ms, vs));
        lemma_interpret_from_short(ms.drop_first(), vs.drop_first(), pre + b0, k - b0.len());
    }
}

/// Law: interpreting any proper prefix of the stored values of the members fails, for want of
/// bytes.
#[verifier::spinoff_prover]
#[verifier::rlimit(40)]
pub proof fn lemma_interpret_short_fails(ms: Seq<MemberV>, vs: Seq<DataValueV>, k: int)
    requires
        ms.len() == vs.len(),
        forall|j: int| 0 <= j < ms.len() ==> fits(#[trigger] ms[j], vs[j]),
        blobs(ms, vs).len() <= usize::MAX,
        0 <= k < blobs(ms, vs).len(),
    ensures
        interpret_from(ms, blobs(ms, vs).take(k), 0) matches Err(e) && e is BufferSizing,
{
    let pre = Seq::<u8>::empty();
    assert(pre + blobs(ms, vs) =~= blobs(ms, vs));
    assert(pre + blobs(ms, vs).take(k) =~= blobs(ms, vs).take(k));
    lemma_interpret_from_short(ms, vs, pre, k);
}

/// The index of the last `c` in `s`, if there is one.
pub open spec fn last_index(s: Seq<char>, c: char) -> Option<int>
    decreases s.len(),
{
    if s.len() == 0 {
        None
    } else if s.last() == c {
        Some(s.len() - 1)
    } else {
        last_index(s.drop_last(), c)
    }
}

/// The index of the last `c` in `v[..to]`.
fn rfind_char(v: &[char], c: char, to: usize) -> (r: Option<usize>)
    requires
        to <= v@.len(),
    ensures
        last_index(v@.subrange(0, to as int), c) == (match r {
            Some(k) => Some(k as int),
            None => None::<int>,
        }),
        r matches Some(k) ==> k < to,
{
    let mut i = to;
    while i > 0
        invariant
            i <= to <= v@.len(),
            last_index(v@.subrange(0, to as int), c) == last_index(v@.subrange(0, i as int), c),
        decreases i,
    {
        let ghost s = v@.subrange(0, i as int);
        assert(s.drop_last() =~= v@.subrange(0, i - 1));
        if v[i - 1] == c {
            return Some(i - 1);
        }
        i = i - 1;
    }
    None
}

/// The part of `text` to show around columns `start..end`: from just past the last comma
/// before `start` up to the first comma from `end` on (`end` kept within the text), with the
/// column where it starts.
pub open spec fn subselection(text: Seq<char>, start: nat, end: nat) -> (Seq<char>, nat) {
    let n = text.len();
    let e = if n <= end {
        (n - 1) as nat
    } else {
        end
    };
    let from: nat = match last_index(text.subrange(0, start as int), ',') {
        Some(k) => (k + 1) as nat,
        None => 0,
    };
    let to: nat = match first_index(text.subrange(e as int, n as int), ',') {
        Some(k) => (e + k) as nat,
        None => n,
    };
    (text.subrange(from as int, to as int), from)
}

/// Carets under the columns `start..end` of a selection that starts at column `offset`.
pub open spec fn caret_line(len: nat, start: nat, end: nat, offset: nat) -> Seq<char> {
    Seq::new(len, |i: int| if start <= offset + i < end { '^' } else { ' ' })
}

/// The selection around columns `start..end`, and a line of carets under them.
pub open spec fn context_text(text: Seq<char>, start: nat, end: nat) -> Seq<char> {
    let (sel, offset) = subselection(text, start, end);
    sel + "\n"@ + caret_line(sel.len(), start, end, offset)
}

fn subselect_text(text: &str, start: usize, end: usize) -> (r: (&str, usize))
    requires
        start < text@.len(),
        start <= end,
    ensures
        (r.0@, r.1 as nat) == subselection(text@, start as nat, end as nat),
        r.1 as nat + r.0@.len() <= text@.len(),
        text@.len() <= usize::MAX,
{
    let v = chars_of(text);
    let n = v.len();
    let end = if n <= end {
        n - 1
    } else {
        end
    };
    let selection_start = match rfind_char(v.as_slice(), ',', start) {
        Some(k) => k + 1,
        None => 0,
    };
    let selection_end = match find_char(v.as_slice(), ',', end, n) {
        Some(k) => k,
        None => n,
    };
    proof {
        lemma_first_index_props(v@.subrange(end as int, n as int), ',');
        assert(selection_start <= start);
        assert(start <= end);
        assert(selection_end <= n);
        assert(selection_start <= selection_end);
    }
    (text.substring_char(selection_start, selection_end), selection_start)
}

fn produce_caret_string(subselection: &str, start: usize, end: usize, offset: usize) -> (s: String)
    requires
        offset + subselection@.len() <= usize::MAX,
    ensures
        s@ == caret_line(subselection@.len(), start as nat, end as nat, offset as nat),
{
    let n = subselection.unicode_len();
    let mut s = String::new();
    let mut x = offset;
    while x < offset + n
        invariant
            offset <= x <= offset + n,
            n == subselection@.len(),
            offset + n <= usize::MAX,
            s@ == caret_line((x - offset) as nat, start as nat, end as nat, offset as nat),
        decreases offset + n - x,
    {
        if x >= start && x < end {
            push_char(&mut s, '^');
        } else {
            push_char(&mut s, ' ');
        }
        x = x + 1;
        assert(s@ =~= caret_line((x - offset) as nat, start as nat, end as nat, offset as nat));
    }
    s
}

fn produce_context(text: &str, start: usize, end: usize) -> (s: String)
    requires
        start < text@.len(),
        start <= end,
    ensures
        s@ == context_text(text@, start as nat, end as nat),
{
    let (selection, offset) = subselect_text(text, start, end);
    let caret_string = produce_caret_string(selection, start, end, offset);
    let mut s = String::new();
    push_str(&mut s, selection);
    push_str(&mut s, "\n");
    push_str(&mut s, caret_string.as_str());
    s
}

/// Every located error starts inside the text of `n` characters.
pub open spec fn spans_ok(e: InternalErrorV, n: nat) -> bool
    decreases e,
{
    match e {
        InternalErrorV::Parsing { offender, .. } => offender.column_start <= offender.column_end
            && offender.column_start < n,
        InternalErrorV::IllegalSpecification { offender, .. } => offender.column_start
            <= offender.column_end && offender.column_start < n,
        InternalErrorV::MultipleFailures(es) => all_spans_ok(es, n),
    }
}

pub open spec fn all_spans_ok(es: Seq<InternalErrorV>, n: nat) -> bool
    decreases es,
{
    if es.len() == 0 {
        true
    } else {
        proof {
            assert(decreases_to!(es => es.drop_last()));
        }
        all_spans_ok(es.drop_last(), n) && spans_ok(es.last(), n)
    }
}

/// A parser error as a public error: the located part of the text with carets under it, the
/// columns, and the reason as text (a parsing reason ends the line).
pub open spec fn converted(e: InternalErrorV, text: Seq<char>) -> ElucidatorErrorV
    decreases e,
{
    match e {
        InternalErrorV::Parsing { offender, reason } => ElucidatorErrorV::Specification {
            context: context_text(text, offender.column_start as nat, offender.column_end as nat),
            column_start: offender.column_start as usize,
            column_end: offender.column_end as usize,
            reason: parsing_failure_text(reason) + "\n"@,
        },
        InternalErrorV::IllegalSpecification { offender, reason } => ElucidatorErrorV::Specification {
            context: context_text(text, offender.column_start as nat, offender.column_end as nat),
            column_start: offender.column_start as usize,
            column_end: offender.column_end as usize,
            reason: specification_failure_text(reason),
        },
        InternalErrorV::MultipleFailures(es) => merged_errors(converted_all(es, text)),
    }
}

pub open spec fn converted_all(es: Seq<InternalErrorV>, text: Seq<char>) -> Seq<ElucidatorErrorV>
    decreases es,
{
    if es.len() == 0 {
        Seq::empty()
    } else {
        proof {
            assert(decreases_to!(es => es.drop_last()));
        }
        converted_all(es.drop_last(), text).push(converted(es.last(), text))
    }
}

#[verifier::loop_isolation(false)]
#[verifier::spinoff_prover]
fn convert_error(error: &InternalError, text: &str) -> (r: ElucidatorError)
    requires
        spans_ok(error@, text@.len()),
    ensures
        r@ == converted(error@, text@),
    decreases error,
{
    match error {
        InternalError::Parsing { offender, reason } => {
            let column_start = offender.column_start;
            let column_end = offender.column_end;
            let mut r = reason.to_display_string();
            push_str(&mut r, "\n");
            ElucidatorError::Specification {
                context: produce_context(text, column_start, column_end),
                column_start,
                column_end,
                reason: r,
            }
        },
        InternalError::IllegalSpecification { offender, reason } => {
            let column_start = offender.column_start;
            let column_end = offender.column_end;
            ElucidatorError::Specification {
                context: produce_context(text, column_start, column_end),
                column_start,
                column_end,
                reason: reason.to_display_string(),
            }
        },
        InternalError::MultipleFailures(errs) => {
            let ghost inner = error@->MultipleFailures_0;
            assert(inner.len() == errs@.len());
            assert(forall|j: int| 0 <= j < errs@.len() ==> inner[j] == errs@[j]@);
            let mut errors: Vec<ElucidatorError> = Vec::new();
            let mut i: usize = 0;
            while i < errs.len()
                invariant
                    i <= errs@.len(),
                    inner.len() == errs@.len(),
                    forall|j: int| 0 <= j < errs@.len() ==> inner[j] == errs@[j]@,
                    all_spans_ok(inner, text@.len()),
                    error_views(errors@) == converted_all(inner.subrange(0, i as int), text@),
                decreases errs.len() - i,
            {
                proof {
                    assert(decreases_to!(error => errs[i as int]));
                    lemma_all_spans_ok(inner, text@.len(), i as int);
                }
                let ghost before = errors@;
                let c = convert_error(&errs[i], text);
                errors.push(c);
                proof {
                    let part = inner.subrange(0, i + 1);
                    assert(part.drop_last() =~= inner.subrange(0, i as int));
                    assert(errors@.drop_last() =~= before);
                    lemma_error_list_view(errors@);
                    lemma_error_list_view(before);
                    assert(error_views(errors@) =~= error_views(before).push(c@));
                }
                i = i + 1;
            }
            assert(inner.subrange(0, errs@.len() as int) =~= inner);
            ElucidatorError::merge(errors.as_slice())
        },
    }
}

#[verifier::spinoff_prover]
#[verifier::rlimit(40)]
pub proof fn lemma_all_spans_ok(es: Seq<InternalErrorV>, n: nat, k: int)
    requires
        all_spans_ok(es, n),
        0 <= k < es.len(),
    ensures
        spans_ok(es[k], n),
    decreases es.len(),
{
    if k < es.len() - 1 {
        lemma_all_spans_ok(es.drop_last(), n, k);
    }
}

/// Checks that every located error starts inside a text of `n` characters.
#[verifier::loop_isolation(false)]
pub fn spans_within(error: &InternalError, n: usize) -> (b: bool)
    ensures
        b == spans_ok(error@, n as nat),
    decreases error,
{
    match error {
        InternalError::Parsing { offender, .. } => offender.column_start <= offender.column_end
            && offender.column_start < n,
        InternalError::IllegalSpecification { offender, .. } => offender.column_start
            <= offender.column_end && offender.column_start < n,
        InternalError::MultipleFailures(errs) => {
            let ghost inner = error@->MultipleFailures_0;
            assert(inner.len() == errs@.len());
            assert(forall|j: int| 0 <= j < errs@.len() ==> inner[j] == errs@[j]@);
            let mut ok = true;
            let mut i: usize = 0;
            while i < errs.len()
                invariant
                    i <= errs@.len(),
                    inner.len() == errs@.len(),
                    forall|j: int| 0 <= j < errs@.len() ==> inner[j] == errs@[j]@,
                    ok == all_spans_ok(inner.subrange(0, i as int), n as nat),
                decreases errs.len() - i,
            {
                proof {
                    assert(decreases_to!(error => errs[i as int]));
                    let part = inner.subrange(0, i + 1);
                    assert(part.drop_last() =~= inner.subrange(0, i as int));
                }
                let here = spans_within(&errs[i], n);
                ok = ok && here;
                i = i + 1;
            }
            assert(inner.subrange(0, errs@.len() as int) =~= inner);
            ok
        },
    }
}

/// `from_text` is defined on a text when the located errors it would report start inside it.
pub open spec fn from_text_defined(text: Seq<char>) -> bool {
    match spec_validate_metadataspec(spec_metadataspec(text)) {
        Ok(_) => true,
        Err(e) => spans_ok(e, text.len()),
    }
}

/// What `from_text` gives: the members of a valid text, else its errors located in the text.
pub open spec fn spec_from_text(text: Seq<char>) -> Result<Seq<MemberV>, ElucidatorErrorV> {
    match spec_validate_metadataspec(spec_metadataspec(text)) {
        Ok(ms) => Ok(ms),
        Err(e) => Err(converted(e, text)),
    }
}

/// Every member that validates is legal: a string is never an array.
#[verifier::spinoff_prover]
#[verifier::rlimit(40)]
pub proof fn lemma_validated_members_legal(ms: Seq<crate::parsing::MemberSpecV>)
    ensures
        members_legal(validate_all(ms).0),
    decreases ms.len(),
{
    if ms.len() > 0 {
        lemma_validated_members_legal(ms.drop_last());
        let (oks, errs) = validate_all(ms.drop_last());
        match spec_validate_memberspec(ms.last()) {
            Ok(m) => {
                let oks2 = validate_all(ms).0;
                assert(oks2 == oks.push(m));
                assert forall|k: int| 0 <= k < oks2.len() implies legal_sizing(
                    (#[trigger] oks2[k]).sizing,
                    oks2[k].dtype,
                ) by {
                    if k < oks.len() {
                        assert(oks2[k] == oks[k]);
                    }
                }
            },
            Err(_) => {},
        }
    }
}

impl DesignationSpecification {
    /// Parses the text of a designation's members, such as `foo: u32, bar: f32[10]`.
    pub fn from_text(text: &str) -> (r: Result<Self, ElucidatorError>)
        requires
            encode_utf8(text@).len() <= usize::MAX,
            from_text_defined(text@),
        ensures
            r matches Ok(d) ==> spec_from_text(text@) == Ok::<Seq<MemberV>, ElucidatorErrorV>(d@) && d.wf(),
            r matches Err(e) ==> spec_from_text(text@) == Err::<Seq<MemberV>, ElucidatorErrorV>(e@),
    {
        let parsed = get_metadataspec(text);
        proof {
            lemma_parsed_spec_consistent(text@);
            lemma_validated_members_legal(spec_metadataspec(text@).member_outputs);
        }
        let validated = validate_metadataspec(&parsed);
        match validated {
            Ok(members) => {
                proof {
                    crate::validating::lemma_validated_identifiers_distinct(spec_metadataspec(text@).member_outputs);
                }
                Ok(DesignationSpecification { members })
            },
            Err(e) => Err(convert_error(&e, text)),
        }
    }
}

impl DesignationSpecification {
    /// Parses the text of a designation's members, as `from_text` does, when every error it
    /// would report is located inside the text; `None` otherwise.
    pub fn try_from_text(text: &str) -> (r: Option<Result<Self, ElucidatorError>>)
        requires
            encode_utf8(text@).len() <= usize::MAX,
        ensures
            r is None <==> !from_text_defined(text@),
            r matches Some(Ok(d)) ==> spec_from_text(text@) == Ok::<Seq<MemberV>, ElucidatorErrorV>(d@) && d.wf(),
            r matches Some(Err(e)) ==> spec_from_text(text@) == Err::<Seq<MemberV>, ElucidatorErrorV>(e@),
    {
        let parsed = get_metadataspec(text);
        proof {
            lemma_parsed_spec_consistent(text@);
        }
        match validate_metadataspec(&parsed) {
            Ok(_) => {},
            Err(e) => {
                if !spans_within(&e, text.unicode_len()) {
                    return None;
                }
            },
        }
        Some(DesignationSpecification::from_text(text))
    }
}

/// What `Dtype::from_buffer` gives: one number of the data type from exactly its bytes, or a
/// string from its byte count followed by exactly that many bytes of UTF-8.
pub open spec fn spec_from_buffer(d: Dtype, b: Seq<u8>) -> Result<DataValueV, ElucidatorErrorV> {
    if d == Dtype::Str {
        if b.len() < 8 {
            Err(sizing_error(8, b.len()))
        } else {
            let n = clamp_usize(le_value(b.take(8)));
            if b.len() != n + 8 {
                Err(sizing_error(n + 8, b.len()))
            } else if valid_utf8(b.skip(8)) {
                Ok(DataValueV::Text(decode_utf8(b.skip(8))))
            } else {
                Err(ElucidatorErrorV::FromUtf8)
            }
        }
    } else if b.len() != width(d) {
        Err(sizing_error(width(d), b.len()))
    } else {
        Ok(DataValueV::Scalar(d, decode_value(d, b)))
    }
}

/// The length that a string buffer declares, plus the 8 bytes that declare it, fits a `usize`.
pub open spec fn declared_length_fits(d: Dtype, b: Seq<u8>) -> bool {
    d == Dtype::Str && b.len() >= 8 ==> clamp_usize(le_value(b.take(8))) + 8 <= usize::MAX
}

impl Dtype {
    /// The value of this data type stored in `buffer`, which must hold exactly its bytes.
    pub fn from_buffer(&self, buffer: &[u8]) -> (r: Result<DataValue, ElucidatorError>)
        requires
            declared_length_fits(*self, buffer@),
        ensures
            r matches Ok(v) ==> spec_from_buffer(*self, buffer@) == Ok::<DataValueV, ElucidatorErrorV>(v@),
            r matches Err(e) ==> spec_from_buffer(*self, buffer@) == Err::<DataValueV, ElucidatorErrorV>(e@),
    {
        let d = *self;
        let buffer_len = buffer.len();
        if d == Dtype::Str {
            if buffer_len < 8 {
                return Err(ElucidatorError::BufferSizing { expected: 8, found: buffer_len });
            }
            let string_length = to_usize(read_le(buffer, 0, 8));
            proof {
                assert(buffer@.subrange(0, 8) =~= buffer@.take(8));
            }
            let expected_buffer_len: usize = string_length + 8;
            if buffer_len != expected_buffer_len {
                return Err(ElucidatorError::BufferSizing { expected: expected_buffer_len, found: buffer_len });
            }
            let mut contents: Vec<u8> = Vec::new();
            let mut i: usize = 8;
            while i < buffer_len
                invariant
                    8 <= i <= buffer_len,
                    buffer_len == buffer@.len(),
                    contents@ == buffer@.subrange(8, i as int),
                decreases buffer_len - i,
            {
                contents.push(buffer[i]);
                i = i + 1;
            }
            assert(contents@ =~= buffer@.skip(8));
            match string_from_utf8(contents) {
                Ok(o) => Ok(DataValue::Str(o)),
                Err(e) => Err(ElucidatorError::FromUtf8 { source: e }),
            }
        } else {
            let w = dtype_width(d);
            let expected = crate::helper::buff_size_or_err(buffer, w)?;
            let x = decode_at(d, buffer, 0);
            proof {
                assert(buffer@.subrange(0, width(d) as int) =~= buffer@);
            }
            Ok(scalar_value(d, x))
        }
    }
}

/// Law: a number stored by its data type, or a string, is read back by `from_buffer`.
#[verifier::spinoff_prover]
#[verifier::rlimit(40)]
pub proof fn lemma_from_buffer_round_trip(v: DataValueV)
    requires
        match v {
            DataValueV::Scalar(d, x) => d != Dtype::Str && in_range(d, x),
            DataValueV::Text(s) => text_bytes(s).len() <= usize::MAX,
            DataValueV::Array(_, _) => false,
        },
    ensures
        spec_from_buffer(value_dtype_of(v), buffer_of(v)) == Ok::<DataValueV, ElucidatorErrorV>(v),
{
    lemma_pow256_values();
    match v {
        DataValueV::Scalar(d, x) => {
            lemma_decode_value_bytes(d, x);
        },
        DataValueV::Text(t) => {
            let e = encode_utf8(t);
            lemma_le_round_trip(e.len(), 8);
            vstd::utf8::encode_utf8_valid_utf8(t);
            vstd::utf8::encode_utf8_decode_utf8(t);
            let b = text_bytes(t);
            assert(b.take(8) =~= le_bytes(e.len(), 8));
            assert(b.skip(8) =~= e);
        },
        DataValueV::Array(_, _) => {},
    }
}

/// Law: the buffer of each primitive value, read by its own data type, gives the value back:
/// for every integer type and for strings (whose buffer fits a `usize`).
#[verifier::spinoff_prover]
#[verifier::rlimit(40)]
pub proof fn lemma_primitives_round_trip(
    a: u8,
    b: u16,
    c: u32,
    d: u64,
    e: i8,
    f: i16,
    g: i32,
    h: i64,
    t: String,
)
    requires
        text_bytes(t@).len() <= usize::MAX,
    ensures
        spec_from_buffer(Dtype::Byte, buffer_of(a.value())) == Ok::<DataValueV, ElucidatorErrorV>(a.value()),
        spec_from_buffer(Dtype::UnsignedInteger16, buffer_of(b.value())) == Ok::<DataValueV, ElucidatorErrorV>(
            b.value(),
        ),
        spec_from_buffer(Dtype::UnsignedInteger32, buffer_of(c.value())) == Ok::<DataValueV, ElucidatorErrorV>(
            c.value(),
        ),
        spec_from_buffer(Dtype::UnsignedInteger64, buffer_of(d.value())) == Ok::<DataValueV, ElucidatorErrorV>(
            d.value(),
        ),
        spec_from_buffer(Dtype::SignedInteger8, buffer_of(e.value())) == Ok::<DataValueV, ElucidatorErrorV>(
            e.value(),
        ),
        spec_from_buffer(Dtype::SignedInteger16, buffer_of(f.value())) == Ok::<DataValueV, ElucidatorErrorV>(
            f.value(),
        ),
        spec_from_buffer(Dtype::SignedInteger32, buffer_of(g.value())) == Ok::<DataValueV, ElucidatorErrorV>(
            g.value(),
        ),
        spec_from_buffer(Dtype::SignedInteger64, buffer_of(h.value())) == Ok::<DataValueV, ElucidatorErrorV>(
            h.value(),
        ),
        spec_from_buffer(Dtype::Str, buffer_of(t.value())) == Ok::<DataValueV, ElucidatorErrorV>(t.value()),
{
    lemma_pow256_values();
    lemma_from_buffer_round_trip(a.value());
    lemma_from_buffer_round_trip(b.value());
    lemma_from_buffer_round_trip(c.value());
    lemma_from_buffer_round_trip(d.value());
    lemma_from_buffer_round_trip(e.value());
    lemma_from_buffer_round_trip(f.value());
    lemma_from_buffer_round_trip(g.value());
    lemma_from_buffer_round_trip(h.value());
    lemma_from_buffer_round_trip(t.value());
}

/// Writing back the value that little-endian bytes give yields those bytes.
#[verifier::spinoff_prover]
#[verifier::rlimit(40)]
proof fn lemma_le_bytes_of_value(b: Seq<u8>)
    ensures
        le_bytes(le_value(b), b.len()) == b,
    decreases b.len(),
{
    if b.len() > 0 {
        let r = b.drop_first();
        lemma_le_bytes_of_value(r);
        let v = le_value(b);
        let w = le_value(r);
        assert(v == b[0] as nat + 256 * w);
        assert(v % 256 == b[0] as nat && v / 256 == w) by (nonlinear_arith)
            requires
                v == b[0] as nat + 256 * w,
                0 <= b[0] < 256,
                w >= 0,
        ;
        assert(le_bytes(v, b.len()) =~= seq![(v % 256) as u8] + le_bytes(v / 256, (b.len() - 1) as nat));
        assert(le_bytes(v, b.len()) =~= b);
    }
}

/// Law: `from_buffer` reads a value only from a buffer that holds exactly its bytes: what it
/// reads has the data type asked for and writes back as that very buffer; for a number, it
/// succeeds exactly when the buffer has the width of the data type, and otherwise reports the
/// width expected and the length found.
#[verifier::spinoff_prover]
#[verifier::rlimit(40)]
pub proof fn lemma_from_buffer_exact(d: Dtype, b: Seq<u8>)
    requires
        b.len() <= usize::MAX,
    ensures
        spec_from_buffer(d, b) matches Ok(v) ==> buffer_of(v) == b && value_dtype_of(v) == d,
        d != Dtype::Str ==> (spec_from_buffer(d, b) is Ok <==> b.len() == width(d)),
        d != Dtype::Str && b.len() != width(d) ==> spec_from_buffer(d, b) == Err::<DataValueV, ElucidatorErrorV>(
            ElucidatorErrorV::BufferSizing { expected: width(d) as usize, found: b.len() as usize },
        ),
{
    lemma_pow256_values();
    if d == Dtype::Str {
        if b.len() >= 8 {
            let h = b.take(8);
            let n = clamp_usize(le_value(h));
            if b.len() == n + 8 && valid_utf8(b.skip(8)) {
                crate::bytes::lemma_le_value_bound(h);
                assert(n == le_value(h));
                vstd::utf8::decode_utf8_encode_utf8(b.skip(8));
                lemma_le_bytes_of_value(h);
                assert(b =~= h + b.skip(8));
            }
        }
    } else if b.len() == width(d) {
        lemma_le_bytes_of_value(b);
        crate::bytes::lemma_le_value_bound(b);
        let u = le_value(b);
        assert(unsigned_repr(d, decode_value(d, b)) == u);
    }
}

/// Law: a dynamic array member is stored as its element count in 8 little-endian bytes, then
/// its elements' bytes; any other member as its value's bytes alone.
pub proof fn lemma_blob_layout(m: MemberV, v: DataValueV, i: int)
    requires
        0 <= i < 8,
    ensures
        m.sizing != Sizing::Dynamic ==> blob(m, v) == buffer_of(v),
        m.sizing == Sizing::Dynamic ==> blob(m, v).len() == 8 + buffer_of(v).len(),
        m.sizing == Sizing::Dynamic ==> blob(m, v)[i] as int == (array_len(v) / pow256(i as nat)) % 256,
        m.sizing == Sizing::Dynamic ==> blob(m, v).subrange(8, blob(m, v).len() as int) == buffer_of(v),
{
    if m.sizing == Sizing::Dynamic {
        let h = le_bytes(array_len(v), 8);
        crate::bytes::lemma_le_bytes_len(array_len(v), 8);
        crate::bytes::lemma_le_bytes_index(array_len(v), 8, i);
        let b = blob(m, v);
        assert(b == h + buffer_of(v));
        assert(b[i] == h[i]);
        assert(b.subrange(8, b.len() as int) =~= buffer_of(v));
    }
}

/// The data type of a number or a string.
pub open spec fn value_dtype_of(v: DataValueV) -> Dtype {
    match v {
        DataValueV::Scalar(d, _) => d,
        DataValueV::Text(_) => Dtype::Str,
        DataValueV::Array(d, _) => d,
    }
}

/// Reads a string from a buffer of exactly 8 bytes: only its count fits there, so the string
/// read is empty.
pub fn read_one_string(buf: &[u8]) -> (r: Result<String, ElucidatorError>)
    ensures
        buf@.len() != 8 ==> (r matches Err(e) && e@ == sizing_error(8, buf@.len())),
        buf@.len() == 8 ==> (r matches Ok(s) && s@ == Seq::<char>::empty()),
{
    if buf.len() != 8 {
        return Err(ElucidatorError::BufferSizing { expected: 8, found: buf.len() });
    }
    let n_bytes = read_le(buf, 0, 8);
    if n_bytes == 0 {
        Ok(String::new())
    } else {
        let databuf: Vec<u8> = Vec::new();
        proof {
            assert(decode_utf8(databuf@) =~= Seq::<char>::empty());
        }
        match string_from_utf8(databuf) {
            Ok(o) => Ok(o),
            Err(e) => Err(ElucidatorError::FromUtf8 { source: e }),
        }
    }
}

/// How a designation's members are written: each member as `identifier: type`, separated by
/// `", "`.
pub open spec fn designation_text(ms: Seq<MemberV>) -> Seq<char> {
    crate::error::join(ms.map_values(|m: MemberV| member_text(m)), ", "@)
}

impl DesignationSpecification {
    /// The members as text, as `from_text` reads them.
    pub fn to_display_string(&self) -> (s: String)
        ensures
            s@ == designation_text(self@),
    {
        let ghost parts = self@.map_values(|m: MemberV| member_text(m));
        let mut s = String::new();
        let mut i: usize = 0;
        while i < self.members.len()
            invariant
                i <= self.members@.len(),
                parts == self@.map_values(|m: MemberV| member_text(m)),
                parts.len() == self.members@.len(),
                s@ == crate::error::join(parts.subrange(0, i as int), ", "@),
            decreases self.members.len() - i,
        {
            assert(parts[i as int] == member_text(self.members@[i as int]@));
            if i > 0 {
                push_str(&mut s, ", ");
            }
            let t = self.members[i].to_display_string();
            push_str(&mut s, t.as_str());
            proof {
                if i > 0 {
                    crate::error::lemma_join_step(parts, ", "@, i as int);
                } else {
                    assert(parts.subrange(0, 1) =~= seq![parts[0]]);
                }
            }
            i = i + 1;
        }
        assert(parts.subrange(0, parts.len() as int) =~= parts);
        s
    }
}

} // verus!
