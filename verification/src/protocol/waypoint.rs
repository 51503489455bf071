//! Waypoints that the client shows on its locator bar.

use vstd::prelude::*;

use crate::protocol::bytes::{be_u24, read_u24_be, write_u24_be};

verus! {

/// How a waypoint looks: the name of its style, and its color in 24 bits.
#[derive(Debug)]
pub struct WaypointIcon {
    style: String,
    color: u32,
}

impl WaypointIcon {
    pub closed spec fn style(&self) -> Seq<char> {
        self.style@
    }

    pub closed spec fn color(&self) -> u32 {
        self.color
    }

    #[verifier::type_invariant]
    spec fn color_has_24_bits(&self) -> bool {
        self.color < 0x100_0000
    }

    /// The icon with the given style and the lowest 24 bits of `color`.
    pub fn new(style: String, color: u32) -> (icon: WaypointIcon)
        ensures
            icon.style() == style@,
            icon.color() == color & 0xFF_FFFF,
    {
        assert(color & 0xFF_FFFF < 0x100_0000) by (bit_vector);
        WaypointIcon { style, color: color & 0xFF_FFFF }
    }

    pub fn get_style(&self) -> (style: &str)
        ensures
            style@ == self.style(),
    {
        self.style.as_str()
    }

    pub fn get_color(&self) -> (color: u32)
        ensures
            color == self.color(),
            color < 0x100_0000,
    {
        proof {
            use_type_invariant(self);
        }
        self.color
    }

    pub fn copy(&self) -> (icon: WaypointIcon)
        ensures
            icon.style() == self.style(),
            icon.color() == self.color(),
    {
        proof {
            use_type_invariant(self);
        }
        WaypointIcon { style: self.style.clone(), color: self.color }
    }

    /// The three bytes of the color, the most significant first.
    pub fn encode_color(&self) -> (bytes: [u8; 3])
        ensures
            be_u24(bytes@[0], bytes@[1], bytes@[2]) == self.color(),
    {
        proof {
            use_type_invariant(self);
        }
        write_u24_be(self.color)
    }

    /// The color in the first three bytes of `r`, or nothing where there
    /// are fewer.
    pub fn decode_color(r: &[u8]) -> (color: Option<u32>)
        ensures
            match color {
                Some(color) => r@.len() >= 3 && color == be_u24(r@[0], r@[1], r@[2]),
                None => r@.len() < 3,
            },
    {
        if r.len() < 3 {
            None
        } else {
            Some(read_u24_be(r))
        }
    }
}

} // verus!
