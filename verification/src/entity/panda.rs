//! The flags of a panda.

use vstd::prelude::*;

use crate::entity::flags::{bit_at, get_bit, set_bit, with_bit};

verus! {

/// The flags of a panda.
#[derive(Clone, Copy, Debug, PartialEq, Eq, Hash, Structural)]
pub struct DataFlags(pub i8);

impl DataFlags {
    /// Gets the bit at offset 1.
    pub fn sneezing(&self) -> (on: bool)
        ensures
            on == bit_at(self.0, 1),
    {
        get_bit(self.0, 1)
    }

    /// Sets the bit at offset 1.
    pub fn set_sneezing(&mut self, sneezing: bool)
        ensures
            final(self).0 == with_bit(old(self).0, 1, sneezing),
    {
        self.0 = set_bit(self.0, 1, sneezing);
    }

    /// Gets the bit at offset 2.
    pub fn playing(&self) -> (on: bool)
        ensures
            on == bit_at(self.0, 2),
    {
        get_bit(self.0, 2)
    }

    /// Sets the bit at offset 2.
    pub fn set_playing(&mut self, playing: bool)
        ensures
            final(self).0 == with_bit(old(self).0, 2, playing),
    {
        self.0 = set_bit(self.0, 2, playing);
    }

    /// Gets the bit at offset 3.
    pub fn sitting(&self) -> (on: bool)
        ensures
            on == bit_at(self.0, 3),
    {
        get_bit(self.0, 3)
    }

    /// Sets the bit at offset 3.
    pub fn set_sitting(&mut self, sitting: bool)
        ensures
            final(self).0 == with_bit(old(self).0, 3, sitting),
    {
        self.0 = set_bit(self.0, 3, sitting);
    }

    /// Gets the bit at offset 4.
    pub fn lying_on_back(&self) -> (on: bool)
        ensures
            on == bit_at(self.0, 4),
    {
        get_bit(self.0, 4)
    }

    /// Sets the bit at offset 4.
    pub fn set_lying_on_back(&mut self, lying_on_back: bool)
        ensures
            final(self).0 == with_bit(old(self).0, 4, lying_on_back),
    {
        self.0 = set_bit(self.0, 4, lying_on_back);
    }
}

} // verus!
