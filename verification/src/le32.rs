//! The little-endian encoding of a 32-bit unsigned number in four bytes.

use byteorder::{ByteOrder, LittleEndian};
use vstd::prelude::*;

verus! {

/// Number of bytes that an encoded number occupies.
pub const WIDTH: usize = 4;

/// The number that four little-endian bytes stand for: the first byte counts
/// ones, the second 256s, the third 65536s and the fourth 16777216s.
pub open spec fn le_value(bytes: Seq<u8>) -> int
    recommends
        bytes.len() == 4,
{
    bytes[0] + 256 * bytes[1] + 65536 * bytes[2] + 16777216 * bytes[3]
}

/// The four little-endian bytes of a number, least significant first.
pub open spec fn le_bytes(n: u32) -> Seq<u8> {
    seq![
        (n % 256) as u8,
        (n / 256 % 256) as u8,
        (n / 65536 % 256) as u8,
        (n / 16777216) as u8,
    ]
}

/// A buffer after the number `n` was stored at its start: the first four
/// bytes are the encoding of `n`, every later byte is the one that was there.
pub open spec fn with_number(data: Seq<u8>, n: u32) -> Seq<u8>
    recommends
        data.len() >= 4,
{
    le_bytes(n) + data.skip(4)
}

/// The number that a buffer of at least four bytes holds at its start.
pub open spec fn stored_number(data: Seq<u8>) -> int
    recommends
        data.len() >= 4,
{
    le_value(data.take(4))
}

/// Decoding what was encoded gives the number back.
pub proof fn lemma_value_of_bytes(n: u32)
    ensures
        le_bytes(n).len() == 4,
        le_value(le_bytes(n)) == n,
{
    let v = n as int;
    assert(v == 256 * (v / 256) + v % 256);
    assert(v / 256 == 256 * (v / 256 / 256) + v / 256 % 256);
    assert(v / 256 / 256 == 256 * (v / 256 / 256 / 256) + v / 256 / 256 % 256);
    assert(v / 256 / 256 == v / 65536);
    assert(v / 256 / 256 / 256 == v / 16777216);
}

/// Encoding what was decoded gives the four bytes back.
pub proof fn lemma_bytes_of_value(bytes: Seq<u8>)
    requires
        bytes.len() == 4,
    ensures
        0 <= le_value(bytes) <= u32::MAX,
        le_bytes(le_value(bytes) as u32) == bytes,
{
    let b0 = bytes[0] as int;
    let b1 = bytes[1] as int;
    let b2 = bytes[2] as int;
    let b3 = bytes[3] as int;
    let v = le_value(bytes);
    assert(v == b0 + 256 * (b1 + 256 * (b2 + 256 * b3)));
    assert(v % 256 == b0 && v / 256 == b1 + 256 * (b2 + 256 * b3));
    assert(v / 256 % 256 == b1 && v / 256 / 256 == b2 + 256 * b3);
    assert(v / 256 / 256 % 256 == b2 && v / 256 / 256 / 256 == b3);
    assert(v / 256 / 256 == v / 65536);
    assert(v / 256 / 256 / 256 == v / 16777216);
    let encoded = le_bytes(v as u32);
    assert(encoded[0] == bytes[0]);
    assert(encoded[1] == bytes[1]);
    assert(encoded[2] == bytes[2]);
    assert(encoded[3] == bytes[3]);
    assert(encoded =~= bytes);
}

/// Reads a payload that must be exactly four bytes long as a little-endian
/// number. A payload of any other length is no number.
pub fn decode(payload: &[u8]) -> (number: Option<u32>)
    ensures
        payload@.len() == 4 ==> (number matches Some(n) && n == le_value(payload@)),
        payload@.len() != 4 ==> number is None,
{
    if payload.len() != WIDTH {
        return None;
    }
    let b0: u32 = payload[0] as u32;
    let b1: u32 = payload[1] as u32;
    let b2: u32 = payload[2] as u32;
    let b3: u32 = payload[3] as u32;
    Some(b0 + 256 * b1 + 65536 * b2 + 16777216 * b3)
}

/// Stores `n` at the start of `buf` by a call of
/// `byteorder::LittleEndian::write_u32` on the whole buffer. That function
/// copies the four little-endian bytes of `n` over the first four bytes of
/// the buffer and touches nothing else. It panics on a buffer shorter than
/// four bytes, which the precondition leaves out.
#[verifier::external_body]
pub(crate) fn write_u32(buf: &mut Vec<u8>, n: u32)
    requires
        old(buf)@.len() >= 4,
    ensures
        final(buf)@ == with_number(old(buf)@, n),
{
    LittleEndian::write_u32(&mut buf[0..], n);
}

} // verus!
