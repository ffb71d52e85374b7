//! Little-endian integers in byte sequences.

use scroll::{Pread, Pwrite};
use vstd::prelude::*;

verus! {

/// The two bytes at `offset`, read as a little-endian number.
pub open spec fn at16(bytes: Seq<u8>, offset: int) -> int {
    bytes[offset] + 0x100 * bytes[offset + 1]
}

/// The four bytes at `offset`, read as a little-endian number.
pub open spec fn at32(bytes: Seq<u8>, offset: int) -> int {
    bytes[offset] + 0x100 * bytes[offset + 1] + 0x1_0000 * bytes[offset + 2] + 0x100_0000
        * bytes[offset + 3]
}

/// The little-endian bytes of a 16-bit number.
pub open spec fn bytes16(value: u16) -> Seq<u8> {
    seq![(value % 0x100) as u8, (value / 0x100) as u8]
}

/// The little-endian bytes of a 32-bit number.
pub open spec fn bytes32(value: u32) -> Seq<u8> {
    seq![
        (value % 0x100) as u8,
        (value / 0x100 % 0x100) as u8,
        (value / 0x1_0000 % 0x100) as u8,
        (value / 0x100_0000) as u8,
    ]
}

/// Reading back the bytes of a 16-bit number gives the number.
pub proof fn lemma_16_round_trip(value: u16)
    ensures
        bytes16(value).len() == 2,
        at16(bytes16(value), 0) == value,
{
}

/// Reading back the bytes of a 32-bit number gives the number.
pub proof fn lemma_32_round_trip(value: u32)
    ensures
        bytes32(value).len() == 4,
        at32(bytes32(value), 0) == value,
{
}

/// Calls `scroll::Pread::pread_with::<u16>` with little-endian context: the number
/// in the two bytes at `offset`, or `None` where `bytes` does not hold both of them.
#[verifier::external_body]
pub(crate) fn read_u16(bytes: &[u8], offset: usize) -> (value: Option<u16>)
    ensures
        match value {
            Some(v) => offset + 2 <= bytes@.len() && v == at16(bytes@, offset as int),
            None => offset + 2 > bytes@.len(),
        },
{
    bytes.pread_with::<u16>(offset, scroll::LE).ok()
}

/// Calls `scroll::Pread::pread_with::<u32>` with little-endian context: the number
/// in the four bytes at `offset`, or `None` where `bytes` does not hold all of them.
#[verifier::external_body]
pub(crate) fn read_u32(bytes: &[u8], offset: usize) -> (value: Option<u32>)
    ensures
        match value {
            Some(v) => offset + 4 <= bytes@.len() && v == at32(bytes@, offset as int),
            None => offset + 4 > bytes@.len(),
        },
{
    bytes.pread_with::<u32>(offset, scroll::LE).ok()
}

/// Calls `scroll::Pwrite::pwrite_with` with a `u16` and little-endian context: where
/// `bytes` holds two bytes at `offset`, those two become the number's bytes and the
/// others stay; elsewhere nothing changes. The result says which of the two it was.
#[verifier::external_body]
pub(crate) fn write_u16(bytes: &mut [u8], offset: usize, value: u16) -> (written: bool)
    ensures
        written == (offset + 2 <= old(bytes)@.len()),
        final(bytes)@ == if written {
            old(bytes)@.update(offset as int, bytes16(value)[0]).update(
                offset + 1,
                bytes16(value)[1],
            )
        } else {
            old(bytes)@
        },
{
    bytes.pwrite_with(value, offset, scroll::LE).is_ok()
}

/// The number whose little-endian bytes are `lo` and `hi`.
pub fn u16_from(lo: u8, hi: u8) -> (value: u16)
    ensures
        value == lo + 0x100 * hi,
        value == at16(seq![lo, hi], 0),
{
    lo as u16 + 0x100 * (hi as u16)
}

/// The number whose little-endian bytes are `b0`, `b1`, `b2` and `b3`.
pub fn u32_from(b0: u8, b1: u8, b2: u8, b3: u8) -> (value: u32)
    ensures
        value == b0 + 0x100 * b1 + 0x1_0000 * b2 + 0x100_0000 * b3,
        value == at32(seq![b0, b1, b2, b3], 0),
{
    b0 as u32 + 0x100 * (b1 as u32) + 0x1_0000 * (b2 as u32) + 0x100_0000 * (b3 as u32)
}

/// The little-endian bytes of `value`.
pub fn u32_to(value: u32) -> (bytes: [u8; 4])
    ensures
        bytes@ == bytes32(value),
{
    [
        (value % 0x100) as u8,
        (value / 0x100 % 0x100) as u8,
        (value / 0x1_0000 % 0x100) as u8,
        (value / 0x100_0000) as u8,
    ]
}

/// The first byte is the low one: numbers are read and written in the order of their weight,
/// for every number and every place.
pub proof fn law_low_byte_first(bytes: Seq<u8>, offset: int, half: u16, word: u32)
    ensures
        at16(bytes, offset) == bytes[offset] + 256 * bytes[offset + 1],
        at32(bytes, offset) == bytes[offset] + 256 * (bytes[offset + 1] + 256 * (bytes[offset + 2]
            + 256 * bytes[offset + 3])),
        bytes16(half).len() == 2,
        half == bytes16(half)[0] + 256 * bytes16(half)[1],
        bytes32(word).len() == 4,
        word == bytes32(word)[0] + 256 * (bytes32(word)[1] + 256 * (bytes32(word)[2] + 256
            * bytes32(word)[3])),
{
}

} // verus!
