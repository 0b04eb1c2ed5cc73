//! Tensor codec: fixed-width signed integers to and from little-endian
//! byte buffers, and the protocol's datatype tag strings.

use vstd::bytes::*;
use vstd::prelude::*;

verus! {

/// Datatypes this client exchanges with the server: fixed-width signed
/// integers, identified on the wire by a tag string such as `"INT32"`.
#[derive(Clone, Copy, Debug, PartialEq, Eq, Structural)]
pub enum DataType {
    Int8,
    Int16,
    Int32,
    Int64,
}

/// A single typed element of a tensor.
#[derive(Clone, Copy, Debug, PartialEq, Eq, Structural)]
pub enum Scalar {
    I8(i8),
    I16(i16),
    I32(i32),
    I64(i64),
}

/// Failures while interpreting wire data.
#[derive(Clone, Copy, Debug, PartialEq, Eq, Structural)]
pub enum DecodeError {
    /// A raw buffer's length differs from the size of the target datatype.
    SizeMismatch,
    /// A datatype tag string is not one the codec knows.
    UnknownDatatype,
}

/// Size in bytes of one element of the given datatype.
pub open spec fn size_of_datatype(t: DataType) -> nat {
    match t {
        DataType::Int8 => 1,
        DataType::Int16 => 2,
        DataType::Int32 => 4,
        DataType::Int64 => 8,
    }
}

/// The datatype a scalar belongs to.
pub open spec fn scalar_datatype(s: Scalar) -> DataType {
    match s {
        Scalar::I8(_) => DataType::Int8,
        Scalar::I16(_) => DataType::Int16,
        Scalar::I32(_) => DataType::Int32,
        Scalar::I64(_) => DataType::Int64,
    }
}

/// Two's-complement image of an `i8` in an unsigned byte.
pub open spec fn u8_of_i8(v: i8) -> u8 {
    (if v >= 0 {
        v as int
    } else {
        v + 0x100
    }) as u8
}

/// Signed value represented by an unsigned byte.
pub open spec fn i8_of_u8(u: u8) -> i8 {
    (if u < 0x80 {
        u as int
    } else {
        u - 0x100
    }) as i8
}

/// Two's-complement image of an `i16` in a `u16`.
pub open spec fn u16_of_i16(v: i16) -> u16 {
    (if v >= 0 {
        v as int
    } else {
        v + 0x1_0000
    }) as u16
}

/// Signed value represented by a `u16`.
pub open spec fn i16_of_u16(u: u16) -> i16 {
    (if u < 0x8000 {
        u as int
    } else {
        u - 0x1_0000
    }) as i16
}

/// Two's-complement image of an `i32` in a `u32`.
pub open spec fn u32_of_i32(v: i32) -> u32 {
    (if v >= 0 {
        v as int
    } else {
        v + 0x1_0000_0000
    }) as u32
}

/// Signed value represented by a `u32`.
pub open spec fn i32_of_u32(u: u32) -> i32 {
    (if u < 0x8000_0000 {
        u as int
    } else {
        u - 0x1_0000_0000
    }) as i32
}

/// Two's-complement image of an `i64` in a `u64`.
pub open spec fn u64_of_i64(v: i64) -> u64 {
    (if v >= 0 {
        v as int
    } else {
        v + 0x1_0000_0000_0000_0000
    }) as u64
}

/// Signed value represented by a `u64`.
pub open spec fn i64_of_u64(u: u64) -> i64 {
    (if u < 0x8000_0000_0000_0000 {
        u as int
    } else {
        u - 0x1_0000_0000_0000_0000
    }) as i64
}

/// Little-endian byte encoding of a scalar, exactly
/// `size_of_datatype(scalar_datatype(s))` bytes long.
pub open spec fn scalar_le_bytes(s: Scalar) -> Seq<u8> {
    match s {
        Scalar::I8(v) => seq![u8_of_i8(v)],
        Scalar::I16(v) => spec_u16_to_le_bytes(u16_of_i16(v)),
        Scalar::I32(v) => spec_u32_to_le_bytes(u32_of_i32(v)),
        Scalar::I64(v) => spec_u64_to_le_bytes(u64_of_i64(v)),
    }
}

/// The scalar a buffer of the right length decodes to.
pub open spec fn decoded_scalar(bytes: Seq<u8>, t: DataType) -> Scalar
    recommends
        bytes.len() == size_of_datatype(t),
{
    match t {
        DataType::Int8 => Scalar::I8(i8_of_u8(bytes[0])),
        DataType::Int16 => Scalar::I16(i16_of_u16(spec_u16_from_le_bytes(bytes))),
        DataType::Int32 => Scalar::I32(i32_of_u32(spec_u32_from_le_bytes(bytes))),
        DataType::Int64 => Scalar::I64(i64_of_u64(spec_u64_from_le_bytes(bytes))),
    }
}

/// Protocol tag string for a datatype.
pub open spec fn tag_of(t: DataType) -> Seq<char> {
    match t {
        DataType::Int8 => "INT8"@,
        DataType::Int16 => "INT16"@,
        DataType::Int32 => "INT32"@,
        DataType::Int64 => "INT64"@,
    }
}

/// Size in bytes of one element of the given datatype.
pub fn datatype_size(t: DataType) -> (n: usize)
    ensures
        n as nat == size_of_datatype(t),
{
    match t {
        DataType::Int8 => 1,
        DataType::Int16 => 2,
        DataType::Int32 => 4,
        DataType::Int64 => 8,
    }
}

fn i8_to_wire(v: i8) -> (u: u8)
    ensures
        u == u8_of_i8(v),
{
    if v >= 0 {
        v as u8
    } else {
        ((v as i16) + 0x100) as u8
    }
}

fn wire_to_i8(u: u8) -> (v: i8)
    ensures
        v == i8_of_u8(u),
{
    if u < 0x80 {
        u as i8
    } else {
        ((u as i16) - 0x100) as i8
    }
}

fn i16_to_wire(v: i16) -> (u: u16)
    ensures
        u == u16_of_i16(v),
{
    if v >= 0 {
        v as u16
    } else {
        ((v as i32) + 0x1_0000) as u16
    }
}

fn wire_to_i16(u: u16) -> (v: i16)
    ensures
        v == i16_of_u16(u),
{
    if u < 0x8000 {
        u as i16
    } else {
        ((u as i32) - 0x1_0000) as i16
    }
}

fn i32_to_wire(v: i32) -> (u: u32)
    ensures
        u == u32_of_i32(v),
{
    if v >= 0 {
        v as u32
    } else {
        ((v as i64) + 0x1_0000_0000) as u32
    }
}

fn wire_to_i32(u: u32) -> (v: i32)
    ensures
        v == i32_of_u32(u),
{
    if u < 0x8000_0000 {
        u as i32
    } else {
        ((u as i64) - 0x1_0000_0000) as i32
    }
}

fn i64_to_wire(v: i64) -> (u: u64)
    ensures
        u == u64_of_i64(v),
{
    if v >= 0 {
        v as u64
    } else {
        ((v as i128) + 0x1_0000_0000_0000_0000) as u64
    }
}

fn wire_to_i64(u: u64) -> (v: i64)
    ensures
        v == i64_of_u64(u),
{
    if u < 0x8000_0000_0000_0000 {
        u as i64
    } else {
        ((u as i128) - 0x1_0000_0000_0000_0000) as i64
    }
}

/// Encode one scalar as its little-endian byte buffer. Encoding a
/// fixed-width integer cannot fail.
pub fn encode_scalar(s: Scalar) -> (r: Vec<u8>)
    ensures
        r@ == scalar_le_bytes(s),
        r@.len() == size_of_datatype(scalar_datatype(s)),
{
    match s {
        Scalar::I8(v) => {
            let mut r: Vec<u8> = Vec::new();
            r.push(i8_to_wire(v));
            proof {
                assert(r@ =~= seq![u8_of_i8(v)]);
            }
            r
        },
        Scalar::I16(v) => u16_to_le_bytes(i16_to_wire(v)),
        Scalar::I32(v) => u32_to_le_bytes(i32_to_wire(v)),
        Scalar::I64(v) => u64_to_le_bytes(i64_to_wire(v)),
    }
}

/// Decode a buffer already known to have the right length.
pub fn decode_scalar_exact(buf: &[u8], t: DataType) -> (s: Scalar)
    requires
        buf@.len() == size_of_datatype(t),
    ensures
        s == decoded_scalar(buf@, t),
        scalar_datatype(s) == t,
{
    match t {
        DataType::Int8 => Scalar::I8(wire_to_i8(buf[0])),
        DataType::Int16 => Scalar::I16(wire_to_i16(u16_from_le_bytes(buf))),
        DataType::Int32 => Scalar::I32(wire_to_i32(u32_from_le_bytes(buf))),
        DataType::Int64 => Scalar::I64(wire_to_i64(u64_from_le_bytes(buf))),
    }
}

/// Decode a raw buffer into a scalar of the target datatype. The byte
/// order is little-endian, fixed by protocol convention. Fails with
/// `SizeMismatch` exactly when the buffer's length differs from the
/// datatype's size.
pub fn decode_scalar(buf: &[u8], t: DataType) -> (r: Result<Scalar, DecodeError>)
    ensures
        buf@.len() == size_of_datatype(t) ==> (r matches Ok(s) && s == decoded_scalar(buf@, t)
            && scalar_datatype(s) == t),
        buf@.len() != size_of_datatype(t) ==> r == Err::<Scalar, DecodeError>(
            DecodeError::SizeMismatch,
        ),
{
    let n = datatype_size(t);
    if buf.len() == n {
        Ok(decode_scalar_exact(buf, t))
    } else {
        Err(DecodeError::SizeMismatch)
    }
}

/// Protocol tag string for a datatype; each supported datatype maps to
/// exactly one tag.
pub fn datatype_tag(t: DataType) -> (r: String)
    ensures
        r@ == tag_of(t),
{
    match t {
        DataType::Int8 => "INT8".to_owned(),
        DataType::Int16 => "INT16".to_owned(),
        DataType::Int32 => "INT32".to_owned(),
        DataType::Int64 => "INT64".to_owned(),
    }
}

/// Map a wire tag string back to a datatype; unknown tags are rejected
/// with `UnknownDatatype`.
pub fn datatype_from_tag(tag: &str) -> (r: Result<DataType, DecodeError>)
    ensures
        match r {
            Ok(t) => tag@ == tag_of(t),
            Err(e) => e == DecodeError::UnknownDatatype && forall|t: DataType| tag@ != tag_of(t),
        },
{
    let owned = tag.to_owned();
    if owned == "INT8".to_owned() {
        Ok(DataType::Int8)
    } else if owned == "INT16".to_owned() {
        Ok(DataType::Int16)
    } else if owned == "INT32".to_owned() {
        Ok(DataType::Int32)
    } else if owned == "INT64".to_owned() {
        Ok(DataType::Int64)
    } else {
        Err(DecodeError::UnknownDatatype)
    }
}

/// Law: distinct datatypes carry distinct tag strings, so a tag
/// identifies at most one datatype.
pub proof fn lemma_tag_injective(a: DataType, b: DataType)
    ensures
        tag_of(a) == tag_of(b) ==> a == b,
{
    reveal_strlit("INT8");
    reveal_strlit("INT16");
    reveal_strlit("INT32");
    reveal_strlit("INT64");
    assert("INT8"@.len() == 4);
    assert("INT16"@[3] == '1');
    assert("INT32"@[3] == '3');
    assert("INT64"@[3] == '6');
}

/// Law: a scalar's encoding has exactly the size of its datatype, and
/// decoding it at that datatype returns the original value.
pub proof fn lemma_scalar_round_trip(s: Scalar)
    ensures
        scalar_le_bytes(s).len() == size_of_datatype(scalar_datatype(s)),
        decoded_scalar(scalar_le_bytes(s), scalar_datatype(s)) == s,
{
    match s {
        Scalar::I8(v) => {
            assert(scalar_le_bytes(s)[0] == u8_of_i8(v));
            assert(i8_of_u8(u8_of_i8(v)) == v);
        },
        Scalar::I16(v) => {
            lemma_auto_spec_u16_to_from_le_bytes();
            assert(i16_of_u16(u16_of_i16(v)) == v);
        },
        Scalar::I32(v) => {
            lemma_auto_spec_u32_to_from_le_bytes();
            assert(i32_of_u32(u32_of_i32(v)) == v);
        },
        Scalar::I64(v) => {
            lemma_auto_spec_u64_to_from_le_bytes();
            assert(i64_of_u64(u64_of_i64(v)) == v);
        },
    }
}

} // verus!
