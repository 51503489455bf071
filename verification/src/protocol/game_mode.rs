//! The game modes of a player.

use vstd::prelude::*;

verus! {

/// The game modes of a player.
#[derive(Copy, Clone, PartialEq, Eq, Hash, Debug, Structural)]
pub enum GameMode {
    Survival,
    Creative,
    Adventure,
    Spectator,
}

} // verus!
