//! The hand a player favours.

use vstd::prelude::*;

verus! {

/// The hand a player favours.
#[derive(Copy, Clone, PartialEq, Eq, PartialOrd, Ord, Hash, Debug, Structural)]
pub enum Arm {
    Left,
    Right,
}

impl Default for Arm {
    fn default() -> (arm: Arm)
        ensures
            arm == Arm::Right,
    {
        Arm::Right
    }
}

} // verus!
