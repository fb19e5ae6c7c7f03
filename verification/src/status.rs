//! The 4-byte status-code wire format.
//!
//! A status code is a `u32` viewed as four little-endian bytes. Byte 0 is a
//! discriminant over the top-level error taxonomy; bytes 1 to 3 carry the
//! payload of the chosen variant.

use vstd::prelude::*;

verus! {

/// Byte 0 (least significant) of a status code.
pub open spec fn byte0(code: u32) -> u8 {
    (code & 0xff) as u8
}

/// Byte 1 of a status code.
pub open spec fn byte1(code: u32) -> u8 {
    ((code >> 8) & 0xff) as u8
}

/// Byte 2 of a status code.
pub open spec fn byte2(code: u32) -> u8 {
    ((code >> 16) & 0xff) as u8
}

/// Byte 3 (most significant) of a status code.
pub open spec fn byte3(code: u32) -> u8 {
    ((code >> 24) & 0xff) as u8
}

/// The status code whose little-endian bytes are `b0, b1, b2, b3`.
pub open spec fn code_of_bytes(b0: u8, b1: u8, b2: u8, b3: u8) -> u32 {
    (b0 as u32) | ((b1 as u32) << 8) | ((b2 as u32) << 16) | ((b3 as u32) << 24)
}

/// Splitting a code into bytes and reassembling them yields the code back.
pub proof fn lemma_code_bytes_roundtrip(code: u32)
    ensures
        code_of_bytes(byte0(code), byte1(code), byte2(code), byte3(code)) == code,
{
    assert(((code & 0xff) as u8 as u32) | ((((code >> 8) & 0xff) as u8 as u32) << 8) | ((((code
        >> 16) & 0xff) as u8 as u32) << 16) | ((((code >> 24) & 0xff) as u8 as u32) << 24)
        == code) by (bit_vector);
}

/// Reassembling four bytes and splitting the result yields the bytes back.
pub proof fn lemma_bytes_code_roundtrip(b0: u8, b1: u8, b2: u8, b3: u8)
    ensures
        byte0(code_of_bytes(b0, b1, b2, b3)) == b0,
        byte1(code_of_bytes(b0, b1, b2, b3)) == b1,
        byte2(code_of_bytes(b0, b1, b2, b3)) == b2,
        byte3(code_of_bytes(b0, b1, b2, b3)) == b3,
{
    assert({
        let code = (b0 as u32) | ((b1 as u32) << 8) | ((b2 as u32) << 16) | ((b3 as u32) << 24);
        (code & 0xff) as u8 == b0 && ((code >> 8) & 0xff) as u8 == b1 && ((code >> 16)
            & 0xff) as u8 == b2 && ((code >> 24) & 0xff) as u8 == b3
    }) by (bit_vector);
}

/// Extracts byte 0 of a status code.
pub fn split_byte0(code: u32) -> (b: u8)
    ensures
        b == byte0(code),
{
    (code & 0xff) as u8
}

/// Extracts byte 1 of a status code.
pub fn split_byte1(code: u32) -> (b: u8)
    ensures
        b == byte1(code),
{
    ((code >> 8) & 0xff) as u8
}

/// Extracts byte 2 of a status code.
pub fn split_byte2(code: u32) -> (b: u8)
    ensures
        b == byte2(code),
{
    ((code >> 16) & 0xff) as u8
}

/// Extracts byte 3 of a status code.
pub fn split_byte3(code: u32) -> (b: u8)
    ensures
        b == byte3(code),
{
    ((code >> 24) & 0xff) as u8
}

/// Packs four little-endian bytes into a status code.
pub fn pack_bytes(b0: u8, b1: u8, b2: u8, b3: u8) -> (code: u32)
    ensures
        code == code_of_bytes(b0, b1, b2, b3),
{
    (b0 as u32) | ((b1 as u32) << 8) | ((b2 as u32) << 16) | ((b3 as u32) << 24)
}

} // verus!
