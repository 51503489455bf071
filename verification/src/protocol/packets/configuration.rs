//! Packets of the configuration state.

use vstd::prelude::*;

use crate::protocol::arm::Arm;
use crate::protocol::bounded::Bounded;

verus! {

/// Which chat messages a client wants to see.
#[derive(Copy, Clone, PartialEq, Eq, Debug, Structural)]
pub enum ChatMode {
    Enabled,
    CommandsOnly,
    Hidden,
}

/// The parts of the skin that a client shows, one bit each.
#[derive(Copy, Clone, PartialEq, Eq, Debug, Structural)]
pub struct DisplayedSkinParts(pub u8);

/// How many particles a client wants to see.
#[derive(Copy, Clone, PartialEq, Eq, Debug, Structural)]
pub enum ParticleMode {
    All,
    Decreased,
    Minimal,
}

/// What a client tells of its settings.
#[derive(Clone, Debug)]
pub struct ClientInformationC2s<'a> {
    pub locale: Bounded<&'a str, 16>,
    pub view_distance: u8,
    pub chat_mode: ChatMode,
    pub chat_colors: bool,
    pub displayed_skin_parts: DisplayedSkinParts,
    pub main_arm: Arm,
    pub enable_text_filtering: bool,
    pub allow_server_listings: bool,
    pub particle_mode: ParticleMode,
}

/// The code of conduct that a client has to accept.
#[derive(Clone, Debug)]
pub struct CodeOfConductS2c<'a> {
    pub code_of_conduct: &'a str,
}

} // verus!
