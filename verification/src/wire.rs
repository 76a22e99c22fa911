//! Fixed-width integers on the wire, in little- and big-endian byte order.
//!
//! The byte layouts are stated as spec functions; the encoding and decoding
//! itself is done by `byteorder`, whose calls stand behind the wrappers below.
use byteorder::{BigEndian, ByteOrder, LittleEndian, WriteBytesExt};
use vstd::prelude::*;

verus! {

/// `v` as two bytes, least significant first.
pub open spec fn le2(v: u16) -> Seq<u8> {
    seq![v as u8, (v >> 8u16) as u8]
}

/// `v` as four bytes, least significant first.
pub open spec fn le4(v: u32) -> Seq<u8> {
    seq![v as u8, (v >> 8u32) as u8, (v >> 16u32) as u8, (v >> 24u32) as u8]
}

/// `v` as eight bytes, least significant first.
pub open spec fn le8(v: u64) -> Seq<u8> {
    seq![
        v as u8,
        (v >> 8u64) as u8,
        (v >> 16u64) as u8,
        (v >> 24u64) as u8,
        (v >> 32u64) as u8,
        (v >> 40u64) as u8,
        (v >> 48u64) as u8,
        (v >> 56u64) as u8,
    ]
}

/// `v` as two bytes, most significant first.
pub open spec fn be2(v: u16) -> Seq<u8> {
    seq![(v >> 8u16) as u8, v as u8]
}

/// `v` as four bytes, most significant first.
pub open spec fn be4(v: u32) -> Seq<u8> {
    seq![(v >> 24u32) as u8, (v >> 16u32) as u8, (v >> 8u32) as u8, v as u8]
}

/// The number whose big-endian encoding is the first two bytes of `b`.
pub open spec fn be2_value(b: Seq<u8>) -> u16 {
    ((b[0] as u16) << 8u16) | (b[1] as u16)
}

/// The number whose big-endian encoding is the first four bytes of `b`.
pub open spec fn be4_value(b: Seq<u8>) -> u32 {
    ((b[0] as u32) << 24u32) | ((b[1] as u32) << 16u32) | ((b[2] as u32) << 8u32) | (b[3] as u32)
}

/// The number whose little-endian encoding is the first eight bytes of `b`.
pub open spec fn le8_value(b: Seq<u8>) -> u64 {
    (b[0] as u64) | ((b[1] as u64) << 8u64) | ((b[2] as u64) << 16u64) | ((b[3] as u64) << 24u64)
        | ((b[4] as u64) << 32u64) | ((b[5] as u64) << 40u64) | ((b[6] as u64) << 48u64) | ((
    b[7] as u64) << 56u64)
}

/// Decoding the big-endian encoding of a `u16` gives the number back.
pub proof fn lemma_be2_roundtrip(v: u16)
    ensures
        be2_value(be2(v)) == v,
{
    let b = be2(v);
    assert(b[0] == (v >> 8u16) as u8 && b[1] == v as u8);
    assert((((((v >> 8u16) as u8) as u16) << 8u16) | ((v as u8) as u16)) == v) by (bit_vector);
}

/// Decoding the big-endian encoding of a `u32` gives the number back.
pub proof fn lemma_be4_roundtrip(v: u32)
    ensures
        be4_value(be4(v)) == v,
{
    let b = be4(v);
    assert(b[0] == (v >> 24u32) as u8 && b[1] == (v >> 16u32) as u8 && b[2] == (v >> 8u32) as u8
        && b[3] == v as u8);
    assert(((((v >> 24u32) as u8) as u32) << 24u32) | ((((v >> 16u32) as u8) as u32) << 16u32) | ((
    ((v >> 8u32) as u8) as u32) << 8u32) | ((v as u8) as u32) == v) by (bit_vector);
}

/// Decoding the little-endian encoding of a `u64` gives the number back.
pub proof fn lemma_le8_roundtrip(v: u64)
    ensures
        le8_value(le8(v)) == v,
{
    let b = le8(v);
    assert(b[0] == v as u8 && b[1] == (v >> 8u64) as u8 && b[2] == (v >> 16u64) as u8 && b[3] == (v
        >> 24u64) as u8 && b[4] == (v >> 32u64) as u8 && b[5] == (v >> 40u64) as u8 && b[6] == (v
        >> 48u64) as u8 && b[7] == (v >> 56u64) as u8);
    assert(((v as u8) as u64) | ((((v >> 8u64) as u8) as u64) << 8u64) | ((((v >> 16u64) as u8)
        as u64) << 16u64) | ((((v >> 24u64) as u8) as u64) << 24u64) | ((((v >> 32u64) as u8)
        as u64) << 32u64) | ((((v >> 40u64) as u8) as u64) << 40u64) | ((((v >> 48u64) as u8)
        as u64) << 48u64) | ((((v >> 56u64) as u8) as u64) << 56u64) == v) by (bit_vector);
}

/// Appends `v` in little-endian order with `byteorder`'s
/// `WriteBytesExt::write_i32::<LittleEndian>`; writing into a `Vec` appends
/// and does not fail.
#[verifier::external_body]
pub(crate) fn push_i32_le(buf: &mut Vec<u8>, v: i32)
    ensures
        final(buf)@ == old(buf)@ + le4(v as u32),
{
    buf.write_i32::<LittleEndian>(v).unwrap();
}

/// Appends `v` in little-endian order with `byteorder`'s
/// `WriteBytesExt::write_u16::<LittleEndian>`.
#[verifier::external_body]
pub(crate) fn push_u16_le(buf: &mut Vec<u8>, v: u16)
    ensures
        final(buf)@ == old(buf)@ + le2(v),
{
    buf.write_u16::<LittleEndian>(v).unwrap();
}

/// Appends `v` in little-endian order with `byteorder`'s
/// `WriteBytesExt::write_u32::<LittleEndian>`.
#[verifier::external_body]
pub(crate) fn push_u32_le(buf: &mut Vec<u8>, v: u32)
    ensures
        final(buf)@ == old(buf)@ + le4(v),
{
    buf.write_u32::<LittleEndian>(v).unwrap();
}

/// Appends `v` in little-endian order with `byteorder`'s
/// `WriteBytesExt::write_u64::<LittleEndian>`.
#[verifier::external_body]
pub(crate) fn push_u64_le(buf: &mut Vec<u8>, v: u64)
    ensures
        final(buf)@ == old(buf)@ + le8(v),
{
    buf.write_u64::<LittleEndian>(v).unwrap();
}

/// Appends `v` in big-endian order with `byteorder`'s
/// `WriteBytesExt::write_u16::<BigEndian>`.
#[verifier::external_body]
pub(crate) fn push_u16_be(buf: &mut Vec<u8>, v: u16)
    ensures
        final(buf)@ == old(buf)@ + be2(v),
{
    buf.write_u16::<BigEndian>(v).unwrap();
}

/// Appends `v` in big-endian order with `byteorder`'s
/// `WriteBytesExt::write_u32::<BigEndian>`.
#[verifier::external_body]
pub(crate) fn push_u32_be(buf: &mut Vec<u8>, v: u32)
    ensures
        final(buf)@ == old(buf)@ + be4(v),
{
    buf.write_u32::<BigEndian>(v).unwrap();
}

/// Appends `v` in big-endian two's-complement order with `byteorder`'s
/// `WriteBytesExt::write_i32::<BigEndian>`.
#[verifier::external_body]
pub(crate) fn push_i32_be(buf: &mut Vec<u8>, v: i32)
    ensures
        final(buf)@ == old(buf)@ + be4(v as u32),
{
    buf.write_i32::<BigEndian>(v).unwrap();
}

/// Reads the big-endian `u16` at `at` with `byteorder`'s
/// `BigEndian::read_u16`, which panics on fewer than two bytes.
#[verifier::external_body]
pub(crate) fn read_u16_be(buf: &[u8], at: usize) -> (r: u16)
    requires
        at + 2 <= buf@.len(),
    ensures
        r == be2_value(buf@.subrange(at as int, at + 2)),
{
    BigEndian::read_u16(&buf[at..])
}

/// Reads the big-endian `u32` at `at` with `byteorder`'s
/// `BigEndian::read_u32`, which panics on fewer than four bytes.
#[verifier::external_body]
pub(crate) fn read_u32_be(buf: &[u8], at: usize) -> (r: u32)
    requires
        at + 4 <= buf@.len(),
    ensures
        r == be4_value(buf@.subrange(at as int, at + 4)),
{
    BigEndian::read_u32(&buf[at..])
}

/// Reads the big-endian two's-complement `i32` at `at` with `byteorder`'s
/// `BigEndian::read_i32`, which reads a `u32` and reinterprets its bits.
#[verifier::external_body]
pub(crate) fn read_i32_be(buf: &[u8], at: usize) -> (r: i32)
    requires
        at + 4 <= buf@.len(),
    ensures
        r as u32 == be4_value(buf@.subrange(at as int, at + 4)),
{
    BigEndian::read_i32(&buf[at..])
}

/// Reads the little-endian `u64` at `at` with `byteorder`'s
/// `LittleEndian::read_u64`, which panics on fewer than eight bytes.
#[verifier::external_body]
pub(crate) fn read_u64_le(buf: &[u8], at: usize) -> (r: u64)
    requires
        at + 8 <= buf@.len(),
    ensures
        r == le8_value(buf@.subrange(at as int, at + 8)),
{
    LittleEndian::read_u64(&buf[at..])
}

} // verus!
