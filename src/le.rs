use vstd::prelude::*;

use byteorder::{ByteOrder, LittleEndian};

verus! {

/// The two bytes of `v`, least significant first.
pub open spec fn le_bytes_u16(v: u16) -> Seq<u8> {
    seq![(v % 256) as u8, (v / 256) as u8]
}

/// The four bytes of `v`, least significant first.
pub open spec fn le_bytes_u32(v: u32) -> Seq<u8> {
    seq![(v % 256) as u8, ((v / 256) % 256) as u8, ((v / 65536) % 256) as u8, (v / 16777216) as u8]
}

/// The number whose little-endian encoding is the first two bytes of `b`.
pub open spec fn le_value_u16(b: Seq<u8>) -> int
    recommends
        b.len() >= 2,
{
    b[0] + 256 * b[1]
}

/// The number whose little-endian encoding is the first four bytes of `b`.
pub open spec fn le_value_u32(b: Seq<u8>) -> int
    recommends
        b.len() >= 4,
{
    b[0] + 256 * b[1] + 65536 * b[2] + 16777216 * b[3]
}

/// Relies on byteorder's `LittleEndian::write_u16`: it stores `n.to_le_bytes()`
/// in the first two bytes of the buffer it is given.
#[verifier::external_body]
pub(crate) fn encode_u16(n: u16) -> (r: [u8; 2])
    ensures
        r@ == le_bytes_u16(n),
{
    let mut buf = [0u8; 2];
    LittleEndian::write_u16(&mut buf, n);
    buf
}

/// Relies on byteorder's `LittleEndian::write_u32`: it stores `n.to_le_bytes()`
/// in the first four bytes of the buffer it is given.
#[verifier::external_body]
pub(crate) fn encode_u32(n: u32) -> (r: [u8; 4])
    ensures
        r@ == le_bytes_u32(n),
{
    let mut buf = [0u8; 4];
    LittleEndian::write_u32(&mut buf, n);
    buf
}

/// Relies on byteorder's `LittleEndian::read_u16`: `u16::from_le_bytes` of the
/// first two bytes; it panics on a shorter slice.
#[verifier::external_body]
pub(crate) fn decode_u16(buf: &[u8]) -> (r: u16)
    requires
        buf@.len() >= 2,
    ensures
        r as int == le_value_u16(buf@),
{
    LittleEndian::read_u16(buf)
}

/// Relies on byteorder's `LittleEndian::read_u32`: `u32::from_le_bytes` of the
/// first four bytes; it panics on a shorter slice.
#[verifier::external_body]
pub(crate) fn decode_u32(buf: &[u8]) -> (r: u32)
    requires
        buf@.len() >= 4,
    ensures
        r as int == le_value_u32(buf@),
{
    LittleEndian::read_u32(buf)
}

} // verus!
