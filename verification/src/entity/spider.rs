//! The flags of a spider.

use vstd::prelude::*;

use crate::entity::flags::{bit_at, get_bit, set_bit, with_bit};

verus! {

/// The flags of a spider.
#[derive(Clone, Copy, Debug, PartialEq, Eq, Hash, Structural)]
pub struct DataFlags(pub i8);

impl DataFlags {
    /// Gets the bit at offset 0.
    pub fn climbing_wall(&self) -> (on: bool)
        ensures
            on == bit_at(self.0, 0),
    {
        get_bit(self.0, 0)
    }

    /// Sets the bit at offset 0.
    pub fn set_climbing_wall(&mut self, climbing_wall: bool)
        ensures
            final(self).0 == with_bit(old(self).0, 0, climbing_wall),
    {
        self.0 = set_bit(self.0, 0, climbing_wall);
    }
}

} // verus!
