//! The flags of an arrow in flight.

use vstd::prelude::*;

use crate::entity::flags::{bit_at, get_bit, set_bit, with_bit};

verus! {

/// The flags of an arrow in flight.
#[derive(Clone, Copy, Debug, PartialEq, Eq, Hash, Structural)]
pub struct Flags(pub i8);

impl Flags {
    /// Gets the bit at offset 0.
    pub fn critical(&self) -> (on: bool)
        ensures
            on == bit_at(self.0, 0),
    {
        get_bit(self.0, 0)
    }

    /// Sets the bit at offset 0.
    pub fn set_critical(&mut self, critical: bool)
        ensures
            final(self).0 == with_bit(old(self).0, 0, critical),
    {
        self.0 = set_bit(self.0, 0, critical);
    }

    /// Gets the bit at offset 1.
    pub fn no_clip(&self) -> (on: bool)
        ensures
            on == bit_at(self.0, 1),
    {
        get_bit(self.0, 1)
    }

    /// Sets the bit at offset 1.
    pub fn set_no_clip(&mut self, no_clip: bool)
        ensures
            final(self).0 == with_bit(old(self).0, 1, no_clip),
    {
        self.0 = set_bit(self.0, 1, no_clip);
    }
}

} // verus!
