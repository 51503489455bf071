//! Values whose size the protocol limits.

use vstd::prelude::*;

verus! {

/// A value that the protocol allows to be at most `MAX` long.
#[derive(Copy, Clone, PartialEq, Eq, Debug)]
pub struct Bounded<T, const MAX: usize>(pub T);

} // verus!
