//! Integers that the wire carries in a variable number of bytes.

use vstd::prelude::*;

verus! {

/// A 32-bit integer that takes between one and five bytes on the wire.
#[derive(Clone, Copy, Debug, PartialEq, Eq, Hash, Structural)]
pub struct VarInt(pub i32);

} // verus!
