//! Big-endian byte order, in which the sensor sends and expects its values.
use byteorder::{BigEndian, ByteOrder};
use vstd::prelude::*;

verus! {

/// The 16-bit value whose big-endian bytes are `hi` and `lo`.
pub open spec fn u16_from_be(hi: u8, lo: u8) -> u16 {
    (hi as int * 0x100 + lo as int) as u16
}

/// The two big-endian bytes of `value`.
pub open spec fn u16_be_bytes(value: u16) -> Seq<u8> {
    seq![(value / 0x100) as u8, (value % 0x100) as u8]
}

/// The 32-bit value whose big-endian bytes are `b0` to `b3`.
pub open spec fn u32_from_be(b0: u8, b1: u8, b2: u8, b3: u8) -> u32 {
    (b0 as int * 0x100_0000 + b1 as int * 0x1_0000 + b2 as int * 0x100 + b3 as int) as u32
}

/// Writes `value` as two bytes, the more significant one first.
pub fn to_be_bytes(value: u16) -> (bytes: [u8; 2])
    ensures
        bytes@ == u16_be_bytes(value),
{
    let bytes: [u8; 2] = [(value / 0x100) as u8, (value % 0x100) as u8];
    assert(bytes@ =~= u16_be_bytes(value));
    bytes
}

/// Calls `byteorder::BigEndian::read_u16`, which reads the first two bytes of
/// `buf` as a big-endian integer and panics on a shorter buffer.
#[verifier::external_body]
pub(crate) fn read_u16(buf: &[u8]) -> (value: u16)
    requires
        buf@.len() >= 2,
    ensures
        value == u16_from_be(buf@[0], buf@[1]),
{
    BigEndian::read_u16(buf)
}

/// Calls `byteorder::BigEndian::read_u32`, which reads the first four bytes of
/// `buf` as a big-endian integer and panics on a shorter buffer.
#[verifier::external_body]
pub(crate) fn read_u32(buf: &[u8]) -> (value: u32)
    requires
        buf@.len() >= 4,
    ensures
        value == u32_from_be(buf@[0], buf@[1], buf@[2], buf@[3]),
{
    BigEndian::read_u32(buf)
}

/// Reading back the bytes of a value gives the value.
pub proof fn lemma_u16_be_round_trip(value: u16)
    ensures
        u16_be_bytes(value).len() == 2,
        u16_from_be(u16_be_bytes(value)[0], u16_be_bytes(value)[1]) == value,
{
}

/// Writing the value of two bytes gives the two bytes.
pub proof fn lemma_u16_be_bytes_of_value(hi: u8, lo: u8)
    ensures
        u16_be_bytes(u16_from_be(hi, lo)) == seq![hi, lo],
{
    assert(u16_be_bytes(u16_from_be(hi, lo)) =~= seq![hi, lo]);
}

} // verus!
