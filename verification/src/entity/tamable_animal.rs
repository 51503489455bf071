//! The flags of an animal that can be tamed.

use vstd::prelude::*;

use crate::entity::flags::{bit_at, get_bit, set_bit, with_bit};

verus! {

/// The flags of an animal that can be tamed.
#[derive(Clone, Copy, Debug, PartialEq, Eq, Hash, Structural)]
pub struct DataFlags(pub i8);

impl DataFlags {
    /// Gets the bit at offset 0.
    pub fn sitting_pose(&self) -> (on: bool)
        ensures
            on == bit_at(self.0, 0),
    {
        get_bit(self.0, 0)
    }

    /// Sets the bit at offset 0.
    pub fn set_sitting_pose(&mut self, sitting_pose: bool)
        ensures
            final(self).0 == with_bit(old(self).0, 0, sitting_pose),
    {
        self.0 = set_bit(self.0, 0, sitting_pose);
    }

    /// Gets the bit at offset 2.
    pub fn tamed(&self) -> (on: bool)
        ensures
            on == bit_at(self.0, 2),
    {
        get_bit(self.0, 2)
    }

    /// Sets the bit at offset 2.
    pub fn set_tamed(&mut self, tamed: bool)
        ensures
            final(self).0 == with_bit(old(self).0, 2, tamed),
    {
        self.0 = set_bit(self.0, 2, tamed);
    }
}

} // verus!
