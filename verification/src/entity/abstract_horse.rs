//! The flags of a horse.

use vstd::prelude::*;

use crate::entity::flags::{bit_at, get_bit, set_bit, with_bit};

verus! {

/// The flags of a horse.
#[derive(Clone, Copy, Debug, PartialEq, Eq, Hash, Structural)]
pub struct DataFlags(pub i8);

impl DataFlags {
    /// Gets the bit at offset 1.
    pub fn tamed(&self) -> (on: bool)
        ensures
            on == bit_at(self.0, 1),
    {
        get_bit(self.0, 1)
    }

    /// Sets the bit at offset 1.
    pub fn set_tamed(&mut self, tamed: bool)
        ensures
            final(self).0 == with_bit(old(self).0, 1, tamed),
    {
        self.0 = set_bit(self.0, 1, tamed);
    }

    /// Gets the bit at offset 2.
    pub fn saddled(&self) -> (on: bool)
        ensures
            on == bit_at(self.0, 2),
    {
        get_bit(self.0, 2)
    }

    /// Sets the bit at offset 2.
    pub fn set_saddled(&mut self, saddled: bool)
        ensures
            final(self).0 == with_bit(old(self).0, 2, saddled),
    {
        self.0 = set_bit(self.0, 2, saddled);
    }

    /// Gets the bit at offset 3.
    pub fn bred(&self) -> (on: bool)
        ensures
            on == bit_at(self.0, 3),
    {
        get_bit(self.0, 3)
    }

    /// Sets the bit at offset 3.
    pub fn set_bred(&mut self, bred: bool)
        ensures
            final(self).0 == with_bit(old(self).0, 3, bred),
    {
        self.0 = set_bit(self.0, 3, bred);
    }

    /// Gets the bit at offset 4.
    pub fn eating_grass(&self) -> (on: bool)
        ensures
            on == bit_at(self.0, 4),
    {
        get_bit(self.0, 4)
    }

    /// Sets the bit at offset 4.
    pub fn set_eating_grass(&mut self, eating_grass: bool)
        ensures
            final(self).0 == with_bit(old(self).0, 4, eating_grass),
    {
        self.0 = set_bit(self.0, 4, eating_grass);
    }

    /// Gets the bit at offset 5.
    pub fn angry(&self) -> (on: bool)
        ensures
            on == bit_at(self.0, 5),
    {
        get_bit(self.0, 5)
    }

    /// Sets the bit at offset 5.
    pub fn set_angry(&mut self, angry: bool)
        ensures
            final(self).0 == with_bit(old(self).0, 5, angry),
    {
        self.0 = set_bit(self.0, 5, angry);
    }

    /// Gets the bit at offset 6.
    pub fn eating(&self) -> (on: bool)
        ensures
            on == bit_at(self.0, 6),
    {
        get_bit(self.0, 6)
    }

    /// Sets the bit at offset 6.
    pub fn set_eating(&mut self, eating: bool)
        ensures
            final(self).0 == with_bit(old(self).0, 6, eating),
    {
        self.0 = set_bit(self.0, 6, eating);
    }
}

} // verus!
