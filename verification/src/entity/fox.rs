//! The flags of a fox.

use vstd::prelude::*;

use crate::entity::flags::{bit_at, get_bit, set_bit, with_bit};

verus! {

/// The flags of a fox.
#[derive(Clone, Copy, Debug, PartialEq, Eq, Hash, Structural)]
pub struct DataFlags(pub i8);

impl DataFlags {
    /// Gets the bit at offset 0.
    pub fn sitting(&self) -> (on: bool)
        ensures
            on == bit_at(self.0, 0),
    {
        get_bit(self.0, 0)
    }

    /// Sets the bit at offset 0.
    pub fn set_sitting(&mut self, sitting: bool)
        ensures
            final(self).0 == with_bit(old(self).0, 0, sitting),
    {
        self.0 = set_bit(self.0, 0, sitting);
    }

    /// Gets the bit at offset 2.
    pub fn crouching(&self) -> (on: bool)
        ensures
            on == bit_at(self.0, 2),
    {
        get_bit(self.0, 2)
    }

    /// Sets the bit at offset 2.
    pub fn set_crouching(&mut self, crouching: bool)
        ensures
            final(self).0 == with_bit(old(self).0, 2, crouching),
    {
        self.0 = set_bit(self.0, 2, crouching);
    }

    /// Gets the bit at offset 3.
    pub fn rolling_head(&self) -> (on: bool)
        ensures
            on == bit_at(self.0, 3),
    {
        get_bit(self.0, 3)
    }

    /// Sets the bit at offset 3.
    pub fn set_rolling_head(&mut self, rolling_head: bool)
        ensures
            final(self).0 == with_bit(old(self).0, 3, rolling_head),
    {
        self.0 = set_bit(self.0, 3, rolling_head);
    }

    /// Gets the bit at offset 4.
    pub fn chasing(&self) -> (on: bool)
        ensures
            on == bit_at(self.0, 4),
    {
        get_bit(self.0, 4)
    }

    /// Sets the bit at offset 4.
    pub fn set_chasing(&mut self, chasing: bool)
        ensures
            final(self).0 == with_bit(old(self).0, 4, chasing),
    {
        self.0 = set_bit(self.0, 4, chasing);
    }

    /// Gets the bit at offset 5.
    pub fn sleeping(&self) -> (on: bool)
        ensures
            on == bit_at(self.0, 5),
    {
        get_bit(self.0, 5)
    }

    /// Sets the bit at offset 5.
    pub fn set_sleeping(&mut self, sleeping: bool)
        ensures
            final(self).0 == with_bit(old(self).0, 5, sleeping),
    {
        self.0 = set_bit(self.0, 5, sleeping);
    }

    /// Gets the bit at offset 6.
    pub fn walking(&self) -> (on: bool)
        ensures
            on == bit_at(self.0, 6),
    {
        get_bit(self.0, 6)
    }

    /// Sets the bit at offset 6.
    pub fn set_walking(&mut self, walking: bool)
        ensures
            final(self).0 == with_bit(old(self).0, 6, walking),
    {
        self.0 = set_bit(self.0, 6, walking);
    }

    /// Gets the bit at offset 7.
    pub fn aggressive(&self) -> (on: bool)
        ensures
            on == bit_at(self.0, 7),
    {
        get_bit(self.0, 7)
    }

    /// Sets the bit at offset 7.
    pub fn set_aggressive(&mut self, aggressive: bool)
        ensures
            final(self).0 == with_bit(old(self).0, 7, aggressive),
    {
        self.0 = set_bit(self.0, 7, aggressive);
    }
}

} // verus!
