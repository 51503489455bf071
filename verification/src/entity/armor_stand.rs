//! The flags of an armor stand.

use vstd::prelude::*;

use crate::entity::flags::{bit_at, get_bit, set_bit, with_bit};

verus! {

/// The flags of an armor stand.
#[derive(Clone, Copy, Debug, PartialEq, Eq, Hash, Structural)]
pub struct DataClientFlags(pub i8);

impl DataClientFlags {
    /// Gets the bit at offset 0.
    pub fn small(&self) -> (on: bool)
        ensures
            on == bit_at(self.0, 0),
    {
        get_bit(self.0, 0)
    }

    /// Sets the bit at offset 0.
    pub fn set_small(&mut self, small: bool)
        ensures
            final(self).0 == with_bit(old(self).0, 0, small),
    {
        self.0 = set_bit(self.0, 0, small);
    }

    /// Gets the bit at offset 1.
    pub fn show_arms(&self) -> (on: bool)
        ensures
            on == bit_at(self.0, 1),
    {
        get_bit(self.0, 1)
    }

    /// Sets the bit at offset 1.
    pub fn set_show_arms(&mut self, show_arms: bool)
        ensures
            final(self).0 == with_bit(old(self).0, 1, show_arms),
    {
        self.0 = set_bit(self.0, 1, show_arms);
    }

    /// Gets the bit at offset 2.
    pub fn hide_base_plate(&self) -> (on: bool)
        ensures
            on == bit_at(self.0, 2),
    {
        get_bit(self.0, 2)
    }

    /// Sets the bit at offset 2.
    pub fn set_hide_base_plate(&mut self, hide_base_plate: bool)
        ensures
            final(self).0 == with_bit(old(self).0, 2, hide_base_plate),
    {
        self.0 = set_bit(self.0, 2, hide_base_plate);
    }

    /// Gets the bit at offset 3.
    pub fn marker(&self) -> (on: bool)
        ensures
            on == bit_at(self.0, 3),
    {
        get_bit(self.0, 3)
    }

    /// Sets the bit at offset 3.
    pub fn set_marker(&mut self, marker: bool)
        ensures
            final(self).0 == with_bit(old(self).0, 3, marker),
    {
        self.0 = set_bit(self.0, 3, marker);
    }
}

} // verus!
