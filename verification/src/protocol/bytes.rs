//! Numbers as the wire carries them: the most significant byte first.
//!
//! The conversions are byteorder's. Nothing in this file is proved: each
//! function makes one call into byteorder, and its contract says what
//! byteorder documents of that call.

use byteorder::{BigEndian, ByteOrder};
use vstd::prelude::*;

verus! {

/// The number that four bytes hold, the most significant first.
pub open spec fn be_u32(b0: u8, b1: u8, b2: u8, b3: u8) -> u32 {
    (b0 as u32 * 0x100_0000 + b1 as u32 * 0x1_0000 + b2 as u32 * 0x100 + b3 as u32) as u32
}

/// The number that three bytes hold, the most significant first.
pub open spec fn be_u24(b0: u8, b1: u8, b2: u8) -> u32 {
    (b0 as u32 * 0x1_0000 + b1 as u32 * 0x100 + b2 as u32) as u32
}

/// `BigEndian::read_u32`: the number in the first four bytes of `buf`.
/// byteorder panics on fewer bytes, so they are left out.
#[verifier::external_body]
pub(crate) fn read_u32_be(buf: &[u8]) -> (n: u32)
    requires
        buf@.len() >= 4,
    ensures
        n == be_u32(buf@[0], buf@[1], buf@[2], buf@[3]),
{
    BigEndian::read_u32(buf)
}

/// `BigEndian::write_u32`: the four bytes of `n`.
#[verifier::external_body]
pub(crate) fn write_u32_be(n: u32) -> (bytes: [u8; 4])
    ensures
        be_u32(bytes@[0], bytes@[1], bytes@[2], bytes@[3]) == n,
{
    let mut bytes = [0u8; 4];
    BigEndian::write_u32(&mut bytes, n);
    bytes
}

/// `BigEndian::read_u24`: the number in the first three bytes of `buf`.
/// byteorder panics on fewer bytes, so they are left out.
#[verifier::external_body]
pub(crate) fn read_u24_be(buf: &[u8]) -> (n: u32)
    requires
        buf@.len() >= 3,
    ensures
        n == be_u24(buf@[0], buf@[1], buf@[2]),
{
    BigEndian::read_u24(buf)
}

/// `BigEndian::write_u24`: the three bytes of `n`. byteorder panics on a
/// number that takes more than three bytes, so such numbers are left out.
#[verifier::external_body]
pub(crate) fn write_u24_be(n: u32) -> (bytes: [u8; 3])
    requires
        n < 0x100_0000,
    ensures
        be_u24(bytes@[0], bytes@[1], bytes@[2]) == n,
{
    let mut bytes = [0u8; 3];
    BigEndian::write_u24(&mut bytes, n);
    bytes
}

/// Four bytes hold one number, and one number has one way of being four
/// bytes.
pub proof fn lemma_be_u32_is_unique(b0: u8, b1: u8, b2: u8, b3: u8, n: u32)
    ensures
        be_u32(b0, b1, b2, b3) == n <==> b0 == n / 0x100_0000 && b1 == (n / 0x1_0000) % 0x100 && b2
            == (n / 0x100) % 0x100 && b3 == n % 0x100,
{
    assert((b0 as u32 * 0x100_0000 + b1 as u32 * 0x1_0000 + b2 as u32 * 0x100 + b3 as u32) as u32
        == n <==> b0 == n / 0x100_0000 && b1 == (n / 0x1_0000) % 0x100 && b2 == (n / 0x100) % 0x100
        && b3 == n % 0x100) by (bit_vector);
}

/// Three bytes hold one number below `2^24`, and such a number has one way
/// of being three bytes.
pub proof fn lemma_be_u24_is_unique(b0: u8, b1: u8, b2: u8, n: u32)
    ensures
        be_u24(b0, b1, b2) < 0x100_0000,
        be_u24(b0, b1, b2) == n <==> n < 0x100_0000 && b0 == n / 0x1_0000 && b1 == (n / 0x100)
            % 0x100 && b2 == n % 0x100,
{
    assert(0x100_0000 > (b0 as u32 * 0x1_0000 + b1 as u32 * 0x100 + b2 as u32) as u32)
        by (bit_vector);
    assert((b0 as u32 * 0x1_0000 + b1 as u32 * 0x100 + b2 as u32) as u32 == n <==> n < 0x100_0000
        && b0 == n / 0x1_0000 && b1 == (n / 0x100) % 0x100 && b2 == n % 0x100) by (bit_vector);
}

} // verus!
