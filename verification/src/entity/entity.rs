//! The flags that every entity has.

use vstd::prelude::*;

use crate::entity::flags::{bit_at, get_bit, set_bit, with_bit};

verus! {

/// The flags that every entity has.
#[derive(Clone, Copy, Debug, PartialEq, Eq, Hash, Structural)]
pub struct DataSharedFlags(pub i8);

impl DataSharedFlags {
    /// Gets the bit at offset 0.
    pub fn on_fire(&self) -> (on: bool)
        ensures
            on == bit_at(self.0, 0),
    {
        get_bit(self.0, 0)
    }

    /// Sets the bit at offset 0.
    pub fn set_on_fire(&mut self, on_fire: bool)
        ensures
            final(self).0 == with_bit(old(self).0, 0, on_fire),
    {
        self.0 = set_bit(self.0, 0, on_fire);
    }

    /// Gets the bit at offset 1.
    pub fn sneaking(&self) -> (on: bool)
        ensures
            on == bit_at(self.0, 1),
    {
        get_bit(self.0, 1)
    }

    /// Sets the bit at offset 1.
    pub fn set_sneaking(&mut self, sneaking: bool)
        ensures
            final(self).0 == with_bit(old(self).0, 1, sneaking),
    {
        self.0 = set_bit(self.0, 1, sneaking);
    }

    /// Gets the bit at offset 3.
    pub fn sprinting(&self) -> (on: bool)
        ensures
            on == bit_at(self.0, 3),
    {
        get_bit(self.0, 3)
    }

    /// Sets the bit at offset 3.
    pub fn set_sprinting(&mut self, sprinting: bool)
        ensures
            final(self).0 == with_bit(old(self).0, 3, sprinting),
    {
        self.0 = set_bit(self.0, 3, sprinting);
    }

    /// Gets the bit at offset 4.
    pub fn swimming(&self) -> (on: bool)
        ensures
            on == bit_at(self.0, 4),
    {
        get_bit(self.0, 4)
    }

    /// Sets the bit at offset 4.
    pub fn set_swimming(&mut self, swimming: bool)
        ensures
            final(self).0 == with_bit(old(self).0, 4, swimming),
    {
        self.0 = set_bit(self.0, 4, swimming);
    }

    /// Gets the bit at offset 5.
    pub fn invisible(&self) -> (on: bool)
        ensures
            on == bit_at(self.0, 5),
    {
        get_bit(self.0, 5)
    }

    /// Sets the bit at offset 5.
    pub fn set_invisible(&mut self, invisible: bool)
        ensures
            final(self).0 == with_bit(old(self).0, 5, invisible),
    {
        self.0 = set_bit(self.0, 5, invisible);
    }

    /// Gets the bit at offset 6.
    pub fn glowing(&self) -> (on: bool)
        ensures
            on == bit_at(self.0, 6),
    {
        get_bit(self.0, 6)
    }

    /// Sets the bit at offset 6.
    pub fn set_glowing(&mut self, glowing: bool)
        ensures
            final(self).0 == with_bit(old(self).0, 6, glowing),
    {
        self.0 = set_bit(self.0, 6, glowing);
    }

    /// Gets the bit at offset 7.
    pub fn fall_flying(&self) -> (on: bool)
        ensures
            on == bit_at(self.0, 7),
    {
        get_bit(self.0, 7)
    }

    /// Sets the bit at offset 7.
    pub fn set_fall_flying(&mut self, fall_flying: bool)
        ensures
            final(self).0 == with_bit(old(self).0, 7, fall_flying),
    {
        self.0 = set_bit(self.0, 7, fall_flying);
    }
}

} // verus!
