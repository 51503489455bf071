//! Packets of the play state.

use vstd::prelude::*;

use crate::protocol::block_pos::BlockPos;
use crate::protocol::game_mode::GameMode;
use crate::protocol::var_int::VarInt;

verus! {

/// Asks for another game mode.
#[derive(Copy, Clone, PartialEq, Eq, Debug, Structural)]
pub struct ChangeGameModeC2s {
    pub game_mode: GameMode,
}

/// Highlights a position of a game test.
#[derive(Copy, Clone, PartialEq, Eq, Debug, Structural)]
pub struct GameTestHighlightPosS2c {
    pub absolute_pos: BlockPos,
    pub relative_pos: BlockPos,
}

/// Opens the inventory of a mount.
#[derive(Copy, Clone, PartialEq, Eq, Debug, Structural)]
pub struct MountScreenOpenS2c {
    pub container_id: VarInt,
    pub inventory_columns: VarInt,
    pub entity_id: i32,
}

/// Shows a recipe in a crafting window without placing its items.
#[derive(Clone, Debug)]
pub struct PlaceGhostRecipeS2c {
    pub window_id: VarInt,
    pub recipe_display: VarInt,
}

/// What a player starts or stops doing.
#[derive(Copy, Clone, PartialEq, Eq, Debug, Structural)]
pub enum PlayerCommand {
    StopSleeping,
    StartSprinting,
    StopSprinting,
    StartRidingJump,
    StopRidingJump,
    OpenInventory,
    StartFallFlying,
}

/// Tells that a player starts or stops doing something.
#[derive(Copy, Clone, Debug)]
pub struct PlayerCommandC2s {
    pub entity_id: VarInt,
    pub action: PlayerCommand,
    pub jump_boost: VarInt,
}

/// What is to happen to a waypoint.
#[derive(Clone, PartialEq, Eq, Debug)]
pub enum WaypointOperation {
    Track,
    Untrack,
    Update,
}

/// How a waypoint gives its place.
#[derive(Clone, PartialEq, Eq, Debug)]
pub enum WaypointType {
    Empty,
    Vec3,
    Chunk,
    Azimuth,
}

} // verus!
