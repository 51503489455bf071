//! What follows from the packets by which a client reports that its player
//! starts or stops sneaking, sprinting, sleeping, gliding, or jumping with a
//! horse.
//!
//! The functions here decide; they neither read packets nor send events.
//! The caller hands in what a packet says and the flags of the player, and
//! carries out what comes back.

use vstd::prelude::*;

use crate::entity::entity::DataSharedFlags;
use crate::entity::flags::{bit_at, lemma_with_bit, with_bit};
use crate::protocol::packets::play::PlayerCommand;

verus! {

/// The offset of the sneaking flag among the flags of an entity.
pub const SNEAKING: u32 = 1;

/// The offset of the sprinting flag among the flags of an entity.
pub const SPRINTING: u32 = 3;

/// How an entity holds its body.
#[derive(Copy, Clone, PartialEq, Eq, Debug, Structural)]
pub enum Pose {
    Standing,
    FallFlying,
    Sleeping,
    Swimming,
    SpinAttack,
    Sneaking,
    LongJumping,
    Dying,
}

#[derive(Copy, Clone, PartialEq, Eq, Debug, Structural)]
pub enum SprintState {
    Start,
    Stop,
}

#[derive(Copy, Clone, PartialEq, Eq, Debug, Structural)]
pub enum SneakState {
    Start,
    Stop,
}

#[derive(Copy, Clone, PartialEq, Eq, Debug, Structural)]
pub enum JumpWithHorseState {
    Start {
        /// The power of the horse jump in `0..=100`.
        power: u8,
    },
    Stop,
}

/// The keys that a client reports as pressed.
#[derive(Copy, Clone, PartialEq, Eq, Debug, Structural)]
pub struct PlayerInputState {
    pub forward: bool,
    pub back: bool,
    pub left: bool,
    pub right: bool,
    pub jump: bool,
    pub sneak: bool,
    pub sprint: bool,
}

/// What a report of pressed keys leads to.
#[derive(Copy, Clone, PartialEq, Eq, Debug, Structural)]
pub struct InputOutcome {
    /// The event to send, where the player starts or stops sneaking.
    pub sneak: Option<SneakState>,
    /// The pose to take, where it changes.
    pub pose: Option<Pose>,
    /// The flags of the player after the report.
    pub flags: DataSharedFlags,
    /// The keys to remember as pressed.
    pub input_state: PlayerInputState,
}

/// What a report of pressed keys leads to: the player starts sneaking
/// where the key is pressed and the flag is not set, stops where the flag
/// is set and the key is not pressed, and goes on as before otherwise. The
/// sneaking flag follows the key; no other flag changes.
pub open spec fn input_outcome(flags: DataSharedFlags, input: PlayerInputState) -> InputOutcome {
    let sneaking = bit_at(flags.0, SNEAKING);
    InputOutcome {
        sneak: if !sneaking && input.sneak {
            Some(SneakState::Start)
        } else if sneaking && !input.sneak {
            Some(SneakState::Stop)
        } else {
            None
        },
        pose: if !sneaking && input.sneak {
            Some(Pose::Sneaking)
        } else if sneaking && !input.sneak {
            Some(Pose::Standing)
        } else {
            None
        },
        flags: DataSharedFlags(with_bit(flags.0, SNEAKING, input.sneak)),
        input_state: input,
    }
}

/// Decides what a report of pressed keys leads to for a player with the
/// given flags.
pub fn handle_player_input(flags: DataSharedFlags, input: PlayerInputState) -> (outcome:
    InputOutcome)
    ensures
        outcome == input_outcome(flags, input),
        bit_at(outcome.flags.0, SNEAKING) == input.sneak,
        forall|other: u32|
            other < 8 && other != SNEAKING ==> bit_at(outcome.flags.0, other) == bit_at(
                flags.0,
                other,
            ),
{
    proof {
        lemma_with_bit(flags.0, SNEAKING, input.sneak);
    }
    let mut flags = flags;
    let mut sneak: Option<SneakState> = None;
    let mut pose: Option<Pose> = None;
    if !flags.sneaking() && input.sneak {
        sneak = Some(SneakState::Start);
        pose = Some(Pose::Sneaking);
        flags.set_sneaking(true);
    } else if flags.sneaking() && !input.sneak {
        sneak = Some(SneakState::Stop);
        pose = Some(Pose::Standing);
        flags.set_sneaking(false);
    }
    InputOutcome { sneak, pose, flags, input_state: input }
}

/// What a command of a player leads to.
#[derive(Copy, Clone, PartialEq, Eq, Debug, Structural)]
pub enum CommandEvent {
    LeaveBed,
    Sprint(SprintState),
    JumpWithHorse(JumpWithHorseState),
}

/// What a command of a player leads to.
#[derive(Copy, Clone, PartialEq, Eq, Debug, Structural)]
pub struct CommandOutcome {
    /// The event to send, if any.
    pub event: Option<CommandEvent>,
    /// The pose to take, where it changes.
    pub pose: Option<Pose>,
    /// The flags of the player after the command.
    pub flags: DataSharedFlags,
}

/// The power of a horse jump: the lowest eight bits of what the packet
/// gives.
pub open spec fn jump_power(jump_boost: i32) -> u8 {
    (jump_boost & 0xFF) as u8
}

/// What a command leads to: sprinting sets or clears the sprinting flag
/// and is announced, leaving a bed and jumping with a horse are announced,
/// gliding changes the pose, and opening the inventory does nothing.
pub open spec fn command_outcome(
    flags: DataSharedFlags,
    action: PlayerCommand,
    jump_boost: i32,
) -> CommandOutcome {
    match action {
        PlayerCommand::StopSleeping => CommandOutcome {
            event: Some(CommandEvent::LeaveBed),
            pose: None,
            flags,
        },
        PlayerCommand::StartSprinting => CommandOutcome {
            event: Some(CommandEvent::Sprint(SprintState::Start)),
            pose: None,
            flags: DataSharedFlags(with_bit(flags.0, SPRINTING, true)),
        },
        PlayerCommand::StopSprinting => CommandOutcome {
            event: Some(CommandEvent::Sprint(SprintState::Stop)),
            pose: None,
            flags: DataSharedFlags(with_bit(flags.0, SPRINTING, false)),
        },
        PlayerCommand::StartRidingJump => CommandOutcome {
            event: Some(
                CommandEvent::JumpWithHorse(
                    JumpWithHorseState::Start { power: jump_power(jump_boost) },
                ),
            ),
            pose: None,
            flags,
        },
        PlayerCommand::StopRidingJump => CommandOutcome {
            event: Some(CommandEvent::JumpWithHorse(JumpWithHorseState::Stop)),
            pose: None,
            flags,
        },
        PlayerCommand::OpenInventory => CommandOutcome { event: None, pose: None, flags },
        PlayerCommand::StartFallFlying => CommandOutcome {
            event: None,
            pose: Some(Pose::FallFlying),
            flags,
        },
    }
}

/// Decides what a command leads to for a player with the given flags.
pub fn handle_player_command(flags: DataSharedFlags, action: PlayerCommand, jump_boost: i32) -> (outcome:
    CommandOutcome)
    ensures
        outcome == command_outcome(flags, action, jump_boost),
{
    let mut flags = flags;
    match action {
        PlayerCommand::StopSleeping => CommandOutcome {
            event: Some(CommandEvent::LeaveBed),
            pose: None,
            flags,
        },
        PlayerCommand::StartSprinting => {
            flags.set_sprinting(true);
            CommandOutcome {
                event: Some(CommandEvent::Sprint(SprintState::Start)),
                pose: None,
                flags,
            }
        },
        PlayerCommand::StopSprinting => {
            flags.set_sprinting(false);
            CommandOutcome {
                event: Some(CommandEvent::Sprint(SprintState::Stop)),
                pose: None,
                flags,
            }
        },
        PlayerCommand::StartRidingJump => {
            assert(jump_boost & 0xFF < 256 && jump_boost & 0xFF >= 0) by (bit_vector);
            let power: u8 = (jump_boost & 0xFF) as u8;
            CommandOutcome {
                event: Some(CommandEvent::JumpWithHorse(JumpWithHorseState::Start { power })),
                pose: None,
                flags,
            }
        },
        PlayerCommand::StopRidingJump => CommandOutcome {
            event: Some(CommandEvent::JumpWithHorse(JumpWithHorseState::Stop)),
            pose: None,
            flags,
        },
        PlayerCommand::OpenInventory => CommandOutcome { event: None, pose: None, flags },
        PlayerCommand::StartFallFlying => CommandOutcome {
            event: None,
            pose: Some(Pose::FallFlying),
            flags,
        },
    }
}

/// Pressing the sneak key twice in a row announces sneaking once.
pub proof fn lemma_sneak_is_announced_once(flags: DataSharedFlags, input: PlayerInputState)
    ensures
        input_outcome(input_outcome(flags, input).flags, input).sneak is None,
        input_outcome(input_outcome(flags, input).flags, input).pose is None,
        input_outcome(input_outcome(flags, input).flags, input).flags == input_outcome(
            flags,
            input,
        ).flags,
{
    lemma_with_bit(flags.0, SNEAKING, input.sneak);
    lemma_with_bit(with_bit(flags.0, SNEAKING, input.sneak), SNEAKING, input.sneak);
}

} // verus!
