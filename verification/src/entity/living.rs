//! The flags of a living entity's hands.

use vstd::prelude::*;

use crate::entity::flags::{bit_at, get_bit, set_bit, with_bit};

verus! {

/// The flags of a living entity's hands.
#[derive(Clone, Copy, Debug, PartialEq, Eq, Hash, Structural)]
pub struct DataLivingEntityFlags(pub i8);

impl DataLivingEntityFlags {
    /// Gets the bit at offset 0.
    pub fn using_item(&self) -> (on: bool)
        ensures
            on == bit_at(self.0, 0),
    {
        get_bit(self.0, 0)
    }

    /// Sets the bit at offset 0.
    pub fn set_using_item(&mut self, using_item: bool)
        ensures
            final(self).0 == with_bit(old(self).0, 0, using_item),
    {
        self.0 = set_bit(self.0, 0, using_item);
    }

    /// Gets the bit at offset 1.
    pub fn off_hand_active(&self) -> (on: bool)
        ensures
            on == bit_at(self.0, 1),
    {
        get_bit(self.0, 1)
    }

    /// Sets the bit at offset 1.
    pub fn set_off_hand_active(&mut self, off_hand_active: bool)
        ensures
            final(self).0 == with_bit(old(self).0, 1, off_hand_active),
    {
        self.0 = set_bit(self.0, 1, off_hand_active);
    }

    /// Gets the bit at offset 2.
    pub fn using_riptide(&self) -> (on: bool)
        ensures
            on == bit_at(self.0, 2),
    {
        get_bit(self.0, 2)
    }

    /// Sets the bit at offset 2.
    pub fn set_using_riptide(&mut self, using_riptide: bool)
        ensures
            final(self).0 == with_bit(old(self).0, 2, using_riptide),
    {
        self.0 = set_bit(self.0, 2, using_riptide);
    }
}

} // verus!
