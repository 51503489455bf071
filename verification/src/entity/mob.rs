//! The flags of a mob.

use vstd::prelude::*;

use crate::entity::flags::{bit_at, get_bit, set_bit, with_bit};

verus! {

/// The flags of a mob.
#[derive(Clone, Copy, Debug, PartialEq, Eq, Hash, Structural)]
pub struct DataMobFlags(pub i8);

impl DataMobFlags {
    /// Gets the bit at offset 0.
    pub fn ai_disabled(&self) -> (on: bool)
        ensures
            on == bit_at(self.0, 0),
    {
        get_bit(self.0, 0)
    }

    /// Sets the bit at offset 0.
    pub fn set_ai_disabled(&mut self, ai_disabled: bool)
        ensures
            final(self).0 == with_bit(old(self).0, 0, ai_disabled),
    {
        self.0 = set_bit(self.0, 0, ai_disabled);
    }

    /// Gets the bit at offset 1.
    pub fn left_handed(&self) -> (on: bool)
        ensures
            on == bit_at(self.0, 1),
    {
        get_bit(self.0, 1)
    }

    /// Sets the bit at offset 1.
    pub fn set_left_handed(&mut self, left_handed: bool)
        ensures
            final(self).0 == with_bit(old(self).0, 1, left_handed),
    {
        self.0 = set_bit(self.0, 1, left_handed);
    }

    /// Gets the bit at offset 2.
    pub fn attacking(&self) -> (on: bool)
        ensures
            on == bit_at(self.0, 2),
    {
        get_bit(self.0, 2)
    }

    /// Sets the bit at offset 2.
    pub fn set_attacking(&mut self, attacking: bool)
        ensures
            final(self).0 == with_bit(old(self).0, 2, attacking),
    {
        self.0 = set_bit(self.0, 2, attacking);
    }
}

} // verus!
