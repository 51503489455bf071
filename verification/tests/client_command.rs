use kanden::entity::entity::DataSharedFlags;
use kanden::protocol::packets::play::PlayerCommand;
use kanden::server::client_command::{
    handle_player_command, handle_player_input, CommandEvent, JumpWithHorseState,
    PlayerInputState, Pose, SneakState, SprintState,
};

fn input(sneak: bool) -> PlayerInputState {
    PlayerInputState {
        forward: true,
        back: false,
        left: false,
        right: true,
        jump: false,
        sneak,
        sprint: false,
    }
}

#[test]
fn sneaking_starts_and_stops_with_the_key() {
    let standing = DataSharedFlags(0b1000);
    let outcome = handle_player_input(standing, input(true));
    assert_eq!(outcome.sneak, Some(SneakState::Start));
    assert_eq!(outcome.pose, Some(Pose::Sneaking));
    assert_eq!(outcome.flags, DataSharedFlags(0b1010));
    assert_eq!(outcome.input_state, input(true));

    let again = handle_player_input(outcome.flags, input(true));
    assert_eq!(again.sneak, None);
    assert_eq!(again.pose, None);
    assert_eq!(again.flags, DataSharedFlags(0b1010));

    let stopped = handle_player_input(again.flags, input(false));
    assert_eq!(stopped.sneak, Some(SneakState::Stop));
    assert_eq!(stopped.pose, Some(Pose::Standing));
    assert_eq!(stopped.flags, standing);

    let idle = handle_player_input(standing, input(false));
    assert_eq!(idle.sneak, None);
    assert_eq!(idle.pose, None);
    assert_eq!(idle.flags, standing);
}

#[test]
fn commands_lead_to_events() {
    let flags = DataSharedFlags(0b10);
    let outcome = handle_player_command(flags, PlayerCommand::StopSleeping, 0);
    assert_eq!(outcome.event, Some(CommandEvent::LeaveBed));
    assert_eq!(outcome.pose, None);
    assert_eq!(outcome.flags, flags);

    let outcome = handle_player_command(flags, PlayerCommand::StartSprinting, 0);
    assert_eq!(outcome.event, Some(CommandEvent::Sprint(SprintState::Start)));
    assert_eq!(outcome.flags, DataSharedFlags(0b1010));

    let outcome = handle_player_command(outcome.flags, PlayerCommand::StopSprinting, 0);
    assert_eq!(outcome.event, Some(CommandEvent::Sprint(SprintState::Stop)));
    assert_eq!(outcome.flags, flags);

    let outcome = handle_player_command(flags, PlayerCommand::StartRidingJump, 90);
    assert_eq!(
        outcome.event,
        Some(CommandEvent::JumpWithHorse(JumpWithHorseState::Start { power: 90 }))
    );
    let outcome = handle_player_command(flags, PlayerCommand::StartRidingJump, 0x1_23);
    assert_eq!(
        outcome.event,
        Some(CommandEvent::JumpWithHorse(JumpWithHorseState::Start { power: 0x23 }))
    );
    let outcome = handle_player_command(flags, PlayerCommand::StartRidingJump, -1);
    assert_eq!(
        outcome.event,
        Some(CommandEvent::JumpWithHorse(JumpWithHorseState::Start { power: 255 }))
    );

    let outcome = handle_player_command(flags, PlayerCommand::StopRidingJump, 0);
    assert_eq!(outcome.event, Some(CommandEvent::JumpWithHorse(JumpWithHorseState::Stop)));

    let outcome = handle_player_command(flags, PlayerCommand::OpenInventory, 0);
    assert_eq!(outcome.event, None);
    assert_eq!(outcome.pose, None);
    assert_eq!(outcome.flags, flags);

    let outcome = handle_player_command(flags, PlayerCommand::StartFallFlying, 0);
    assert_eq!(outcome.event, None);
    assert_eq!(outcome.pose, Some(Pose::FallFlying));
    assert_eq!(outcome.flags, flags);
}
