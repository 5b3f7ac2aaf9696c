//! Network byte order: 16-bit fields travel most significant byte first.

use vstd::prelude::*;

verus! {

/// The 16-bit value whose big-endian encoding is the two bytes `hi`, `lo`.
pub open spec fn be16(hi: u8, lo: u8) -> u16 {
    (hi * 256 + lo) as u16
}

/// The first (most significant) byte of the big-endian encoding of `x`.
pub open spec fn hi_byte(x: u16) -> u8 {
    (x / 256) as u8
}

/// The second (least significant) byte of the big-endian encoding of `x`.
pub open spec fn lo_byte(x: u16) -> u8 {
    (x % 256) as u8
}

/// The big-endian encoding of `x` as a two-byte sequence.
pub open spec fn be16_bytes(x: u16) -> Seq<u8> {
    seq![hi_byte(x), lo_byte(x)]
}

/// Decodes a big-endian 16-bit field.
pub fn read_be16(hi: u8, lo: u8) -> (x: u16)
    ensures
        x == be16(hi, lo),
        hi_byte(x) == hi,
        lo_byte(x) == lo,
{
    (hi as u16) * 256 + (lo as u16)
}

/// Encodes a 16-bit field big-endian.
pub fn write_be16(x: u16) -> (bytes: (u8, u8))
    ensures
        bytes.0 == hi_byte(x),
        bytes.1 == lo_byte(x),
        be16(bytes.0, bytes.1) == x,
{
    ((x / 256) as u8, (x % 256) as u8)
}

/// Encoding a value and decoding the two bytes gives the value back.
pub proof fn lemma_be16_of_bytes(x: u16)
    ensures
        be16(hi_byte(x), lo_byte(x)) == x,
{
}

/// Decoding two bytes and encoding the value gives the two bytes back.
pub proof fn lemma_bytes_of_be16(hi: u8, lo: u8)
    ensures
        hi_byte(be16(hi, lo)) == hi,
        lo_byte(be16(hi, lo)) == lo,
{
}

} // verus!
