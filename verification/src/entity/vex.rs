//! The flags of a vex.

use vstd::prelude::*;

use crate::entity::flags::{bit_at, get_bit, set_bit, with_bit};

verus! {

/// The flags of a vex.
#[derive(Clone, Copy, Debug, PartialEq, Eq, Hash, Structural)]
pub struct DataFlags(pub i8);

impl DataFlags {
    /// Gets the bit at offset 0.
    pub fn charging(&self) -> (on: bool)
        ensures
            on == bit_at(self.0, 0),
    {
        get_bit(self.0, 0)
    }

    /// Sets the bit at offset 0.
    pub fn set_charging(&mut self, charging: bool)
        ensures
            final(self).0 == with_bit(old(self).0, 0, charging),
    {
        self.0 = set_bit(self.0, 0, charging);
    }
}

} // verus!
