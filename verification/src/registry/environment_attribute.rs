//! Attributes of the environment of a dimension.

use vstd::prelude::*;

verus! {

/// The phase of the moon from a point of the day on.
#[derive(Clone, Debug, PartialEq, Eq)]
pub struct MoonPhaseKeyframe {
    pub ticks: u32,
    pub value: String,
}

/// A kind of particle.
#[derive(Clone, Debug, PartialEq, Eq)]
pub struct ParticleOptions {
    pub ty: String,
}

/// When a bed can be used.
#[derive(Clone, Debug, PartialEq, Eq)]
pub enum BedRule {
    Always,
    WhenDark,
    Never,
}

/// What beds do in a dimension.
#[derive(Clone, Debug, PartialEq)]
pub struct BedRules {
    pub can_sleep: BedRule,
    pub can_set_spawn: BedRule,
    pub explodes: BooleanIntRepr,
    pub error_message: Option<String>,
}

/// Yes, no, or whatever holds by default.
#[derive(Clone, Debug, PartialEq, Eq)]
pub enum TriState {
    True,
    False,
    Default,
}

/// A truth value that data files write as the number 1 or 0.
#[derive(Clone, Copy, Debug, PartialEq, Eq, Structural)]
pub struct BooleanIntRepr(pub bool);

impl Default for BooleanIntRepr {
    fn default() -> (value: BooleanIntRepr)
        ensures
            value == BooleanIntRepr(false),
    {
        BooleanIntRepr(false)
    }
}

impl BooleanIntRepr {
    /// The number that stands for the value: 1 for true, 0 for false.
    pub open spec fn int_of(self) -> i32 {
        if self.0 {
            1
        } else {
            0
        }
    }

    /// The value that a number stands for: true for 1, false for any
    /// other.
    pub open spec fn of_int(number: i32) -> BooleanIntRepr {
        BooleanIntRepr(number == 1)
    }

    /// The number that stands for the value.
    pub fn to_int(self) -> (number: i32)
        ensures
            number == self.int_of(),
            Self::of_int(number) == self,
    {
        if self.0 {
            1
        } else {
            0
        }
    }

    /// The value that a number stands for.
    pub fn from_int(number: i32) -> (value: BooleanIntRepr)
        ensures
            value == Self::of_int(number),
    {
        BooleanIntRepr(number == 1)
    }

    /// The truth value itself.
    pub fn get(&self) -> (value: bool)
        ensures
            value == self.0,
    {
        self.0
    }
}

} // verus!
