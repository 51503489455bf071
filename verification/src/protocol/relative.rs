//! Which parts of a position a teleport gives relative to the current one.

use vstd::prelude::*;

verus! {

/// Whether the bit at `offset` is set in `bits`.
pub open spec fn bit_at(bits: u32, offset: u32) -> bool {
    (bits >> offset) & 1 == 1
}

/// `bits` with the bit at `offset` set or cleared, all other bits kept.
pub open spec fn with_bit(bits: u32, offset: u32, on: bool) -> u32 {
    (bits & !(1u32 << offset)) | ((if on {
        1u32
    } else {
        0u32
    }) << offset)
}

/// Setting a flag makes it read as set, leaves every other flag as it
/// was, and changes nothing where the flag already had that value.
pub proof fn lemma_with_bit(bits: u32, offset: u32, on: bool)
    requires
        offset < 32,
    ensures
        bit_at(with_bit(bits, offset, on), offset) == on,
        forall|other: u32|
            other < 32 && other != offset ==> bit_at(with_bit(bits, offset, on), other) == bit_at(
                bits,
                other,
            ),
        bit_at(bits, offset) == on ==> with_bit(bits, offset, on) == bits,
{
    let v: u32 = if on {
        1u32
    } else {
        0u32
    };
    assert((((bits & !(1u32 << offset)) | (v << offset)) >> offset) & 1 == v) by (bit_vector)
        requires
            offset < 32,
            v == 0 || v == 1,
    ;
    assert forall|other: u32| other < 32 && other != offset implies bit_at(
        with_bit(bits, offset, on),
        other,
    ) == bit_at(bits, other) by {
        assert((((bits & !(1u32 << offset)) | (v << offset)) >> other) & 1 == (bits >> other) & 1)
            by (bit_vector)
            requires
                offset < 32,
                other < 32,
                other != offset,
                v == 0 || v == 1,
        ;
    }
    assert((bits >> offset) & 1 == 0 || (bits >> offset) & 1 == 1) by (bit_vector);
    assert(((bits >> offset) & 1 == v) ==> ((bits & !(1u32 << offset)) | (v << offset)) == bits)
        by (bit_vector)
        requires
            offset < 32,
            v == 0 || v == 1,
    ;
}

fn get_bit(bits: u32, offset: u32) -> (on: bool)
    requires
        offset < 32,
    ensures
        on == bit_at(bits, offset),
{
    (bits >> offset) & 1 == 1
}

fn set_bit(bits: u32, offset: u32, on: bool) -> (changed: u32)
    requires
        offset < 32,
    ensures
        changed == with_bit(bits, offset, on),
{
    let value: u32 = if on {
        1
    } else {
        0
    };
    (bits & !(1u32 << offset)) | (value << offset)
}

/// Which parts of a position, a rotation and a velocity are given relative
/// to the current ones: nine flags in the low bits of 32.
#[derive(Copy, Clone, PartialEq, Eq, Debug, Structural)]
pub struct Relative(u32);

impl Relative {
    /// The flags as one number.
    pub closed spec fn bits(self) -> u32 {
        self.0
    }

    /// No flag set.
    pub fn new() -> (flags: Relative)
        ensures
            flags.bits() == 0,
    {
        Relative(0)
    }

    /// The flags that `bits` holds.
    pub fn from_bits(bits: u32) -> (flags: Relative)
        ensures
            flags.bits() == bits,
    {
        Relative(bits)
    }

    /// The flags as one number.
    pub fn into_bits(self) -> (bits: u32)
        ensures
            bits == self.bits(),
    {
        self.0
    }

    /// Gets the bit at offset 0.
    pub fn x(&self) -> (on: bool)
        ensures
            on == bit_at(self.bits(), 0),
    {
        get_bit(self.0, 0)
    }

    /// These flags with the bit at offset 0 set or cleared.
    pub fn with_x(self, x: bool) -> (flags: Relative)
        ensures
            flags.bits() == with_bit(self.bits(), 0, x),
    {
        Relative(set_bit(self.0, 0, x))
    }

    /// Sets the bit at offset 0.
    pub fn set_x(&mut self, x: bool)
        ensures
            final(self).bits() == with_bit(old(self).bits(), 0, x),
    {
        self.0 = set_bit(self.0, 0, x);
    }

    /// Gets the bit at offset 1.
    pub fn y(&self) -> (on: bool)
        ensures
            on == bit_at(self.bits(), 1),
    {
        get_bit(self.0, 1)
    }

    /// These flags with the bit at offset 1 set or cleared.
    pub fn with_y(self, y: bool) -> (flags: Relative)
        ensures
            flags.bits() == with_bit(self.bits(), 1, y),
    {
        Relative(set_bit(self.0, 1, y))
    }

    /// Sets the bit at offset 1.
    pub fn set_y(&mut self, y: bool)
        ensures
            final(self).bits() == with_bit(old(self).bits(), 1, y),
    {
        self.0 = set_bit(self.0, 1, y);
    }

    /// Gets the bit at offset 2.
    pub fn z(&self) -> (on: bool)
        ensures
            on == bit_at(self.bits(), 2),
    {
        get_bit(self.0, 2)
    }

    /// These flags with the bit at offset 2 set or cleared.
    pub fn with_z(self, z: bool) -> (flags: Relative)
        ensures
            flags.bits() == with_bit(self.bits(), 2, z),
    {
        Relative(set_bit(self.0, 2, z))
    }

    /// Sets the bit at offset 2.
    pub fn set_z(&mut self, z: bool)
        ensures
            final(self).bits() == with_bit(old(self).bits(), 2, z),
    {
        self.0 = set_bit(self.0, 2, z);
    }

    /// Gets the bit at offset 3.
    pub fn y_rot(&self) -> (on: bool)
        ensures
            on == bit_at(self.bits(), 3),
    {
        get_bit(self.0, 3)
    }

    /// These flags with the bit at offset 3 set or cleared.
    pub fn with_y_rot(self, y_rot: bool) -> (flags: Relative)
        ensures
            flags.bits() == with_bit(self.bits(), 3, y_rot),
    {
        Relative(set_bit(self.0, 3, y_rot))
    }

    /// Sets the bit at offset 3.
    pub fn set_y_rot(&mut self, y_rot: bool)
        ensures
            final(self).bits() == with_bit(old(self).bits(), 3, y_rot),
    {
        self.0 = set_bit(self.0, 3, y_rot);
    }

    /// Gets the bit at offset 4.
    pub fn x_rot(&self) -> (on: bool)
        ensures
            on == bit_at(self.bits(), 4),
    {
        get_bit(self.0, 4)
    }

    /// These flags with the bit at offset 4 set or cleared.
    pub fn with_x_rot(self, x_rot: bool) -> (flags: Relative)
        ensures
            flags.bits() == with_bit(self.bits(), 4, x_rot),
    {
        Relative(set_bit(self.0, 4, x_rot))
    }

    /// Sets the bit at offset 4.
    pub fn set_x_rot(&mut self, x_rot: bool)
        ensures
            final(self).bits() == with_bit(old(self).bits(), 4, x_rot),
    {
        self.0 = set_bit(self.0, 4, x_rot);
    }

    /// Gets the bit at offset 5.
    pub fn x_vel(&self) -> (on: bool)
        ensures
            on == bit_at(self.bits(), 5),
    {
        get_bit(self.0, 5)
    }

    /// These flags with the bit at offset 5 set or cleared.
    pub fn with_x_vel(self, x_vel: bool) -> (flags: Relative)
        ensures
            flags.bits() == with_bit(self.bits(), 5, x_vel),
    {
        Relative(set_bit(self.0, 5, x_vel))
    }

    /// Sets the bit at offset 5.
    pub fn set_x_vel(&mut self, x_vel: bool)
        ensures
            final(self).bits() == with_bit(old(self).bits(), 5, x_vel),
    {
        self.0 = set_bit(self.0, 5, x_vel);
    }

    /// Gets the bit at offset 6.
    pub fn y_vel(&self) -> (on: bool)
        ensures
            on == bit_at(self.bits(), 6),
    {
        get_bit(self.0, 6)
    }

    /// These flags with the bit at offset 6 set or cleared.
    pub fn with_y_vel(self, y_vel: bool) -> (flags: Relative)
        ensures
            flags.bits() == with_bit(self.bits(), 6, y_vel),
    {
        Relative(set_bit(self.0, 6, y_vel))
    }

    /// Sets the bit at offset 6.
    pub fn set_y_vel(&mut self, y_vel: bool)
        ensures
            final(self).bits() == with_bit(old(self).bits(), 6, y_vel),
    {
        self.0 = set_bit(self.0, 6, y_vel);
    }

    /// Gets the bit at offset 7.
    pub fn z_vel(&self) -> (on: bool)
        ensures
            on == bit_at(self.bits(), 7),
    {
        get_bit(self.0, 7)
    }

    /// These flags with the bit at offset 7 set or cleared.
    pub fn with_z_vel(self, z_vel: bool) -> (flags: Relative)
        ensures
            flags.bits() == with_bit(self.bits(), 7, z_vel),
    {
        Relative(set_bit(self.0, 7, z_vel))
    }

    /// Sets the bit at offset 7.
    pub fn set_z_vel(&mut self, z_vel: bool)
        ensures
            final(self).bits() == with_bit(old(self).bits(), 7, z_vel),
    {
        self.0 = set_bit(self.0, 7, z_vel);
    }

    /// Gets the bit at offset 8.
    pub fn rot_vel(&self) -> (on: bool)
        ensures
            on == bit_at(self.bits(), 8),
    {
        get_bit(self.0, 8)
    }

    /// These flags with the bit at offset 8 set or cleared.
    pub fn with_rot_vel(self, rot_vel: bool) -> (flags: Relative)
        ensures
            flags.bits() == with_bit(self.bits(), 8, rot_vel),
    {
        Relative(set_bit(self.0, 8, rot_vel))
    }

    /// Sets the bit at offset 8.
    pub fn set_rot_vel(&mut self, rot_vel: bool)
        ensures
            final(self).bits() == with_bit(old(self).bits(), 8, rot_vel),
    {
        self.0 = set_bit(self.0, 8, rot_vel);
    }
}

} // verus!
