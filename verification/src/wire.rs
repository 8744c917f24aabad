//! Little-endian 32-bit integers on the wire.
//!
//! The byte layout is stated arithmetically; the bytes themselves are
//! produced and consumed by `byteorder`.

use byteorder::{LittleEndian, ReadBytesExt, WriteBytesExt};
use vstd::prelude::*;

verus! {

/// The unsigned 32-bit value with the same bit pattern as `n` (two's complement).
pub open spec fn as_unsigned(n: i32) -> int {
    if n >= 0 {
        n as int
    } else {
        n + 0x1_0000_0000
    }
}

/// The signed 32-bit value with the same bit pattern as `u`, for `0 <= u < 2^32`.
pub open spec fn as_signed(u: int) -> i32 {
    if u < 0x8000_0000 {
        u as i32
    } else {
        (u - 0x1_0000_0000) as i32
    }
}

/// The four bytes of `n`, least significant first.
pub open spec fn i32_le_bytes(n: i32) -> Seq<u8> {
    let u = as_unsigned(n);
    seq![
        (u % 256) as u8,
        (u / 256 % 256) as u8,
        (u / 65536 % 256) as u8,
        (u / 16777216 % 256) as u8,
    ]
}

/// The integer whose four bytes, least significant first, are `b[0..4]`.
pub open spec fn i32_from_le_bytes(b: Seq<u8>) -> i32
    recommends
        b.len() >= 4,
{
    as_signed(b[0] + 256 * b[1] + 65536 * b[2] + 16777216 * b[3])
}

/// Decoding the four bytes of `n` gives `n` back.
pub proof fn lemma_i32_le_roundtrip(n: i32)
    ensures
        i32_le_bytes(n).len() == 4,
        i32_from_le_bytes(i32_le_bytes(n)) == n,
{
    let u = as_unsigned(n);
    assert(0 <= u < 0x1_0000_0000);
    assert(u == u % 256 + 256 * (u / 256 % 256) + 65536 * (u / 65536 % 256) + 16777216 * (u
        / 16777216 % 256));
}

/// `byteorder::WriteBytesExt::write_i32::<LittleEndian>` on a `Vec<u8>`:
/// appends the four bytes of `n`, least significant first. Writing to a
/// vector cannot fail, so the `io::Result` it returns is always `Ok`.
#[verifier::external_body]
pub(crate) fn write_i32_le(w: &mut Vec<u8>, n: i32)
    ensures
        final(w)@ == old(w)@ + i32_le_bytes(n),
{
    let _ = w.write_i32::<LittleEndian>(n);
}

/// `byteorder::WriteBytesExt::write_u8` on a `Vec<u8>`: appends the one
/// byte. Writing to a vector cannot fail.
#[verifier::external_body]
pub(crate) fn write_byte(w: &mut Vec<u8>, b: u8)
    ensures
        final(w)@ == old(w)@.push(b),
{
    let _ = w.write_u8(b);
}

/// `byteorder::ReadBytesExt::read_i32::<LittleEndian>` on a byte slice:
/// decodes the first four bytes, least significant first, and fails with
/// the reader's end-of-input error when fewer than four are there.
#[verifier::external_body]
pub(crate) fn read_i32_le(src: &[u8]) -> (res: Result<i32, std::io::Error>)
    ensures
        res is Ok <==> src@.len() >= 4,
        res is Ok ==> res->Ok_0 == i32_from_le_bytes(src@),
{
    let mut reader = src;
    reader.read_i32::<LittleEndian>()
}

/// `std::io::Error::from(std::io::ErrorKind::UnexpectedEof)`: the error
/// with which a reader reports that its input ended too early. The error
/// is opaque here, so nothing is claimed of it.
#[verifier::external_body]
pub(crate) fn unexpected_eof() -> std::io::Error {
    std::io::Error::from(std::io::ErrorKind::UnexpectedEof)
}

} // verus!
