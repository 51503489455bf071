//! The flags of a snow golem.

use vstd::prelude::*;

use crate::entity::flags::{bit_at, get_bit, set_bit, with_bit};

verus! {

/// The flags of a snow golem.
#[derive(Clone, Copy, Debug, PartialEq, Eq, Hash, Structural)]
pub struct DataPumpkin(pub i8);

impl DataPumpkin {
    /// Gets the bit at offset 4.
    pub fn has_pumpkin(&self) -> (on: bool)
        ensures
            on == bit_at(self.0, 4),
    {
        get_bit(self.0, 4)
    }

    /// Sets the bit at offset 4.
    pub fn set_has_pumpkin(&mut self, has_pumpkin: bool)
        ensures
            final(self).0 == with_bit(old(self).0, 4, has_pumpkin),
    {
        self.0 = set_bit(self.0, 4, has_pumpkin);
    }
}

} // verus!
