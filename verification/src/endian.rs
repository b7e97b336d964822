//! Sixteen-bit integers in byte buffers.
use byteorder::{ByteOrder, LittleEndian};
use vstd::prelude::*;

verus! {

/// The integer whose low byte is `s[at]` and whose high byte is `s[at + 1]`.
pub open spec fn le16(s: Seq<u8>, at: int) -> u16 {
    (s[at] as int + 256 * (s[at + 1] as int)) as u16
}

/// The integer whose high byte is `s[at]` and whose low byte is `s[at + 1]`.
pub open spec fn be16(s: Seq<u8>, at: int) -> u16 {
    (256 * (s[at] as int) + s[at + 1] as int) as u16
}

/// The low byte of `n`.
pub open spec fn low_byte(n: u16) -> u8 {
    (n % 256) as u8
}

/// The high byte of `n`.
pub open spec fn high_byte(n: u16) -> u8 {
    (n / 256) as u8
}

/// `byteorder::LittleEndian::read_u16` on the bytes of `buf` from `at` on.
/// It reads two bytes, the low one first, and panics on fewer than two.
#[verifier::external_body]
pub(crate) fn read_u16_le(buf: &[u8], at: usize) -> (v: u16)
    requires
        at + 2 <= buf@.len(),
    ensures
        v == le16(buf@, at as int),
{
    LittleEndian::read_u16(&buf[at..])
}

/// `byteorder::LittleEndian::write_u16` on the bytes of `buf` from `at` on.
/// It writes two bytes, the low one first, touches no other byte and panics
/// on fewer than two.
#[verifier::external_body]
pub(crate) fn write_u16_le(buf: &mut Vec<u8>, at: usize, n: u16)
    requires
        at + 2 <= old(buf)@.len(),
    ensures
        final(buf)@ == old(buf)@.update(at as int, low_byte(n)).update(at + 1, high_byte(n)),
{
    LittleEndian::write_u16(&mut buf[at..], n)
}

/// Reads two bytes as an integer, the high byte first.
pub fn read_u16_be(buf: &[u8], at: usize) -> (v: u16)
    requires
        at + 2 <= buf@.len(),
    ensures
        v == be16(buf@, at as int),
{
    let hi: u16 = buf[at] as u16;
    let lo: u16 = buf[at + 1] as u16;
    hi * 256 + lo
}

} // verus!
