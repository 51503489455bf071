//! The frame of a vector that travels in low precision.
//!
//! Such a vector takes one byte where it is zero. Otherwise its three
//! components, each scaled into fifteen bits, share six bytes with the low
//! bits of the scale; a scale beyond those bits goes on in an integer of
//! variable length behind them. This module packs and unpacks the bits. To
//! turn components into fifteen bits and back takes floating point, which
//! is the caller's part, as is the integer of variable length.

use vstd::prelude::*;

use crate::protocol::bytes::{be_u32, read_u32_be, write_u32_be};

verus! {

/// The largest number that fifteen bits hold for a component.
pub const COMPONENT_MAX: u64 = 32766;

/// The 48 bits of a frame: the scale in the lowest three bits, then
/// fifteen bits for each of `x`, `y` and `z`. Of a scale above three, the
/// frame holds the lowest two bits and a flag that says that more follows.
pub open spec fn frame_bits(scale: u64, x: u64, y: u64, z: u64) -> u64 {
    (if scale & 3 != scale {
        (scale & 3) | 4
    } else {
        scale
    }) | (x << 3) | (y << 18) | (z << 33)
}

/// Whether a scale goes on behind the six bytes of the frame.
pub open spec fn scale_is_long(scale: u64) -> bool {
    scale & 3 != scale
}

/// What follows the six bytes of the frame for a long scale: the scale
/// without its lowest two bits, as far as 32 bits hold it.
pub open spec fn scale_rest(scale: u64) -> i32 {
    (scale >> 2) as i32
}

/// A vector as it is framed: six bytes, and what follows them for a long
/// scale.
pub struct Frame {
    pub head: [u8; 6],
    pub rest: Option<i32>,
}

/// Frames a vector: `scale` is the largest of its components, rounded up,
/// and `x`, `y` and `z` are the components in fifteen bits each.
///
/// The first two bytes of the frame are the lowest sixteen bits, the lower
/// byte first; the other four are the next 32 bits, the highest byte first.
pub fn frame(scale: u64, x: u64, y: u64, z: u64) -> (framed: Frame)
    ensures
        framed.head@[0] == (frame_bits(scale, x, y, z) & 0xFF) as u8,
        framed.head@[1] == ((frame_bits(scale, x, y, z) >> 8) & 0xFF) as u8,
        be_u32(framed.head@[2], framed.head@[3], framed.head@[4], framed.head@[5]) == ((
        frame_bits(scale, x, y, z) >> 16) & 0xFFFF_FFFF) as u32,
        framed.rest == (if scale_is_long(scale) {
            Some(scale_rest(scale))
        } else {
            None
        }),
{
    let long: bool = (scale & 3) != scale;
    let masked: u64 = if long {
        (scale & 3) | 4
    } else {
        scale
    };
    let combined: u64 = masked | (x << 3) | (y << 18) | (z << 33);
    assert(combined & 0xFF < 0x100) by (bit_vector);
    assert((combined >> 8) & 0xFF < 0x100) by (bit_vector);
    assert((combined >> 16) & 0xFFFF_FFFF < 0x1_0000_0000) by (bit_vector);
    let low: u8 = (combined & 0xFF) as u8;
    let high: u8 = ((combined >> 8) & 0xFF) as u8;
    let upper: [u8; 4] = write_u32_be(((combined >> 16) & 0xFFFF_FFFF) as u32);
    let rest: Option<i32> = if long {
        Some(#[verifier::truncate] ((scale >> 2) as i32))
    } else {
        None
    };
    Frame { head: [low, high, upper[0], upper[1], upper[2], upper[3]], rest }
}

/// What the first bytes of a framed vector say.
#[derive(Copy, Clone, PartialEq, Eq, Debug, Structural)]
pub enum Head {
    /// The vector is zero; the frame is this one byte.
    Zero,
    /// The vector is not zero; the frame is six bytes, and goes on where
    /// `long` is set.
    Packed { bits: u64, scale_low: u64, long: bool },
}

/// The 48 bits that six bytes of a frame hold.
pub open spec fn head_bits(a: u8, b: u8, upper: u32) -> u64 {
    ((upper as u64) << 16) | ((b as u64) << 8) | (a as u64)
}

/// What the first bytes of a framed vector say: nothing where there is no
/// byte, or a first byte other than zero and fewer than six bytes.
pub open spec fn parsed_head(bytes: Seq<u8>) -> Option<Head> {
    if bytes.len() == 0 {
        None
    } else if bytes[0] == 0 {
        Some(Head::Zero)
    } else if bytes.len() < 6 {
        None
    } else {
        let upper = be_u32(bytes[2], bytes[3], bytes[4], bytes[5]);
        Some(
            Head::Packed {
                bits: head_bits(bytes[0], bytes[1], upper),
                scale_low: (upper & 3) as u64,
                long: bytes[0] & 4 == 4,
            },
        )
    }
}

/// Reads the first bytes of a framed vector, and says how many bytes they
/// are.
pub fn parse_head(r: &[u8]) -> (result: Option<(Head, usize)>)
    ensures
        match result {
            Some((head, taken)) => parsed_head(r@) == Some(head) && taken == (if head is Zero {
                1int
            } else {
                6int
            }),
            None => parsed_head(r@) is None,
        },
{
    if r.len() == 0 {
        return None;
    }
    let a: u8 = r[0];
    if a == 0 {
        return Some((Head::Zero, 1));
    }
    if r.len() < 6 {
        return None;
    }
    let b: u8 = r[1];
    let upper: u32 = read_u32_be(vstd::slice::slice_subrange(r, 2, 6));
    let bits: u64 = ((upper as u64) << 16) | ((b as u64) << 8) | (a as u64);
    assert(upper & 3 <= 3) by (bit_vector);
    Some((Head::Packed { bits, scale_low: (upper & 3) as u64, long: a & 4 == 4 }, 6))
}

/// The fifteen bits of a component that start at bit `shift`, capped at
/// the largest number they hold for a component.
pub open spec fn component(bits: u64, shift: u64) -> u64 {
    if (bits >> shift) & 32767 < COMPONENT_MAX {
        (bits >> shift) & 32767
    } else {
        COMPONENT_MAX
    }
}

/// The scale of a frame: its low bits, and above them the 32 bits of what
/// follows the frame, if anything follows it.
pub open spec fn full_scale(scale_low: u64, rest: Option<i32>) -> u64 {
    match rest {
        Some(rest) => scale_low | (((rest as u64) & 0xFFFF_FFFF) << 2),
        None => scale_low,
    }
}

/// A vector as its frame gives it: each component in fifteen bits, to be
/// spread over the range from -1 to 1 and multiplied with the scale.
#[derive(Copy, Clone, PartialEq, Eq, Debug, Structural)]
pub struct Unpacked {
    pub x: u64,
    pub y: u64,
    pub z: u64,
    pub scale: u64,
}

/// Unpacks the bits of a frame. `rest` is what follows the frame for a
/// long scale.
pub fn unpack(bits: u64, scale_low: u64, rest: Option<i32>) -> (vector: Unpacked)
    ensures
        vector.x == component(bits, 3),
        vector.y == component(bits, 18),
        vector.z == component(bits, 33),
        vector.scale == full_scale(scale_low, rest),
        vector.x <= COMPONENT_MAX && vector.y <= COMPONENT_MAX && vector.z <= COMPONENT_MAX,
{
    let scale: u64 = match rest {
        Some(rest) => scale_low | (((rest as u64) & 0xFFFF_FFFF) << 2),
        None => scale_low,
    };
    Unpacked {
        x: unpack_component(bits, 3),
        y: unpack_component(bits, 18),
        z: unpack_component(bits, 33),
        scale,
    }
}

fn unpack_component(bits: u64, shift: u64) -> (value: u64)
    requires
        shift < 64,
    ensures
        value == component(bits, shift),
        value <= COMPONENT_MAX,
{
    let raw: u64 = (bits >> shift) & 32767;
    if raw < COMPONENT_MAX {
        raw
    } else {
        COMPONENT_MAX
    }
}

/// What was framed comes back: the components as they went in, where each
/// fits its fifteen bits, and a scale up to three as it went in.
pub proof fn lemma_frame_keeps_components(scale: u64, x: u64, y: u64, z: u64)
    requires
        x <= COMPONENT_MAX,
        y <= COMPONENT_MAX,
        z <= COMPONENT_MAX,
    ensures
        component(frame_bits(scale, x, y, z) & 0xFFFF_FFFF_FFFF, 3) == x,
        component(frame_bits(scale, x, y, z) & 0xFFFF_FFFF_FFFF, 18) == y,
        component(frame_bits(scale, x, y, z) & 0xFFFF_FFFF_FFFF, 33) == z,
        scale <= 3 ==> frame_bits(scale, x, y, z) & 7 == scale,
        scale > 3 ==> frame_bits(scale, x, y, z) & 4 == 4,
{
    let masked: u64 = if scale & 3 != scale {
        (scale & 3) | 4
    } else {
        scale
    };
    assert(masked <= 7) by (bit_vector)
        requires
            masked == (if scale & 3 != scale {
                (scale & 3) | 4
            } else {
                scale
            }),
    ;
    assert((((masked | (x << 3) | (y << 18) | (z << 33)) & 0xFFFF_FFFF_FFFF) >> 3) & 32767 == x)
        by (bit_vector)
        requires
            masked <= 7,
            x <= 32766,
            y <= 32766,
            z <= 32766,
    ;
    assert((((masked | (x << 3) | (y << 18) | (z << 33)) & 0xFFFF_FFFF_FFFF) >> 18) & 32767 == y)
        by (bit_vector)
        requires
            masked <= 7,
            x <= 32766,
            y <= 32766,
            z <= 32766,
    ;
    assert((((masked | (x << 3) | (y << 18) | (z << 33)) & 0xFFFF_FFFF_FFFF) >> 33) & 32767 == z)
        by (bit_vector)
        requires
            masked <= 7,
            x <= 32766,
            y <= 32766,
            z <= 32766,
    ;
    assert((masked | (x << 3) | (y << 18) | (z << 33)) & 7 == masked) by (bit_vector)
        requires
            masked <= 7,
    ;
    assert(scale <= 3 ==> scale & 3 == scale) by (bit_vector);
    assert(scale > 3 ==> scale & 3 != scale) by (bit_vector);
    assert(((scale & 3) | 4) & 4 == 4) by (bit_vector);
    assert(masked & 4 == 4 ==> (masked | (x << 3) | (y << 18) | (z << 33)) & 4 == 4)
        by (bit_vector);
}

} // verus!
