//! Multi-byte fields of packet payloads. All of them are little-endian.
//!
//! The bytes are written by `byteorder`. That its functions write the bytes
//! stated here is trusted, not proved.

use byteorder::{LittleEndian, WriteBytesExt};
use vstd::prelude::*;

verus! {

/// The two bytes of a 16-bit field, low byte first.
pub open spec fn le16(n: u16) -> Seq<u8> {
    seq![(n % 256) as u8, (n / 256) as u8]
}

/// The two bytes of a signed 16-bit field in two's complement, low byte first.
pub open spec fn le16_signed(n: i16) -> Seq<u8> {
    if n >= 0 {
        le16(n as u16)
    } else {
        le16((n + 0x1_0000) as u16)
    }
}

/// The four bytes of a 32-bit field, low byte first.
pub open spec fn le32(n: u32) -> Seq<u8> {
    seq![
        (n % 256) as u8,
        (n / 0x100 % 256) as u8,
        (n / 0x1_0000 % 256) as u8,
        (n / 0x100_0000) as u8,
    ]
}

/// The eight bytes of a 64-bit field, low byte first.
pub open spec fn le64(n: u64) -> Seq<u8> {
    le32((n % 0x1_0000_0000) as u32) + le32((n / 0x1_0000_0000) as u32)
}

/// `WriteBytesExt::write_u16::<LittleEndian>` on a vector: appends the two
/// bytes of `n`, low byte first. Writing to a vector does not fail.
#[verifier::external_body]
pub(crate) fn put_u16(buf: &mut Vec<u8>, n: u16)
    ensures
        final(buf)@ == old(buf)@ + le16(n),
{
    let _ = buf.write_u16::<LittleEndian>(n);
}

/// `WriteBytesExt::write_i16::<LittleEndian>` on a vector: appends the two
/// bytes of `n` in two's complement, low byte first.
#[verifier::external_body]
pub(crate) fn put_i16(buf: &mut Vec<u8>, n: i16)
    ensures
        final(buf)@ == old(buf)@ + le16_signed(n),
{
    let _ = buf.write_i16::<LittleEndian>(n);
}

/// `WriteBytesExt::write_u32::<LittleEndian>` on a vector: appends the four
/// bytes of `n`, low byte first.
#[verifier::external_body]
pub(crate) fn put_u32(buf: &mut Vec<u8>, n: u32)
    ensures
        final(buf)@ == old(buf)@ + le32(n),
{
    let _ = buf.write_u32::<LittleEndian>(n);
}

/// `WriteBytesExt::write_u64::<LittleEndian>` on a vector: appends the eight
/// bytes of `n`, low byte first.
#[verifier::external_body]
pub(crate) fn put_u64(buf: &mut Vec<u8>, n: u64)
    ensures
        final(buf)@ == old(buf)@ + le64(n),
{
    let _ = buf.write_u64::<LittleEndian>(n);
}

} // verus!
