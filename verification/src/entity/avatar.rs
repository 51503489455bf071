//! The parts of a player's skin that are shown.

use vstd::prelude::*;

use crate::entity::flags::{bit_at, get_bit, set_bit, with_bit};

verus! {

/// The parts of a player's skin that are shown.
#[derive(Clone, Copy, Debug, PartialEq, Eq, Hash, Structural)]
pub struct DataPlayerModeCustomisation(pub i8);

impl DataPlayerModeCustomisation {
    /// Gets the bit at offset 0.
    pub fn cape(&self) -> (on: bool)
        ensures
            on == bit_at(self.0, 0),
    {
        get_bit(self.0, 0)
    }

    /// Sets the bit at offset 0.
    pub fn set_cape(&mut self, cape: bool)
        ensures
            final(self).0 == with_bit(old(self).0, 0, cape),
    {
        self.0 = set_bit(self.0, 0, cape);
    }

    /// Gets the bit at offset 1.
    pub fn jacket(&self) -> (on: bool)
        ensures
            on == bit_at(self.0, 1),
    {
        get_bit(self.0, 1)
    }

    /// Sets the bit at offset 1.
    pub fn set_jacket(&mut self, jacket: bool)
        ensures
            final(self).0 == with_bit(old(self).0, 1, jacket),
    {
        self.0 = set_bit(self.0, 1, jacket);
    }

    /// Gets the bit at offset 2.
    pub fn left_sleeve(&self) -> (on: bool)
        ensures
            on == bit_at(self.0, 2),
    {
        get_bit(self.0, 2)
    }

    /// Sets the bit at offset 2.
    pub fn set_left_sleeve(&mut self, left_sleeve: bool)
        ensures
            final(self).0 == with_bit(old(self).0, 2, left_sleeve),
    {
        self.0 = set_bit(self.0, 2, left_sleeve);
    }

    /// Gets the bit at offset 3.
    pub fn right_sleeve(&self) -> (on: bool)
        ensures
            on == bit_at(self.0, 3),
    {
        get_bit(self.0, 3)
    }

    /// Sets the bit at offset 3.
    pub fn set_right_sleeve(&mut self, right_sleeve: bool)
        ensures
            final(self).0 == with_bit(old(self).0, 3, right_sleeve),
    {
        self.0 = set_bit(self.0, 3, right_sleeve);
    }

    /// Gets the bit at offset 4.
    pub fn left_pants_leg(&self) -> (on: bool)
        ensures
            on == bit_at(self.0, 4),
    {
        get_bit(self.0, 4)
    }

    /// Sets the bit at offset 4.
    pub fn set_left_pants_leg(&mut self, left_pants_leg: bool)
        ensures
            final(self).0 == with_bit(old(self).0, 4, left_pants_leg),
    {
        self.0 = set_bit(self.0, 4, left_pants_leg);
    }

    /// Gets the bit at offset 5.
    pub fn right_pants_leg(&self) -> (on: bool)
        ensures
            on == bit_at(self.0, 5),
    {
        get_bit(self.0, 5)
    }

    /// Sets the bit at offset 5.
    pub fn set_right_pants_leg(&mut self, right_pants_leg: bool)
        ensures
            final(self).0 == with_bit(old(self).0, 5, right_pants_leg),
    {
        self.0 = set_bit(self.0, 5, right_pants_leg);
    }

    /// Gets the bit at offset 6.
    pub fn hat(&self) -> (on: bool)
        ensures
            on == bit_at(self.0, 6),
    {
        get_bit(self.0, 6)
    }

    /// Sets the bit at offset 6.
    pub fn set_hat(&mut self, hat: bool)
        ensures
            final(self).0 == with_bit(old(self).0, 6, hat),
    {
        self.0 = set_bit(self.0, 6, hat);
    }
}

} // verus!
