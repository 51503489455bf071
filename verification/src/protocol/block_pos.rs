//! Positions of blocks in a world.

use vstd::prelude::*;

verus! {

/// The position of a block in a world.
#[derive(Copy, Clone, PartialEq, Eq, Hash, Debug, Structural)]
pub struct BlockPos {
    pub x: i32,
    pub y: i32,
    pub z: i32,
}

impl BlockPos {
    pub fn new(x: i32, y: i32, z: i32) -> (pos: BlockPos)
        ensures
            pos == (BlockPos { x, y, z }),
    {
        BlockPos { x, y, z }
    }
}

} // verus!
