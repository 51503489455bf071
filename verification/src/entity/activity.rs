//! What a mob is busy with.

use vstd::prelude::*;

verus! {

/// What a mob is busy with.
#[derive(Clone, Copy, Debug, PartialEq, Eq, Structural)]
pub enum Activity {
    Core,
    Idle,
    Work,
    Play,
    Rest,
    Meet,
    Panic,
    Raid,
    PreRaid,
    Hide,
    Fight,
    Celebrate,
    AdmireItem,
    Avoid,
    Ride,
    PlayDead,
    LongJump,
    Ram,
    Tongue,
    Swim,
    LaySpawn,
    Sniff,
    Investigate,
    Roar,
    Emerge,
    Dig,
}

impl Activity {
    /// The name of the activity as data files write it.
    pub open spec fn name_spec(self) -> Seq<char> {
        match self {
            Activity::Core => "core"@,
            Activity::Idle => "idle"@,
            Activity::Work => "work"@,
            Activity::Play => "play"@,
            Activity::Rest => "rest"@,
            Activity::Meet => "meet"@,
            Activity::Panic => "panic"@,
            Activity::Raid => "raid"@,
            Activity::PreRaid => "pre_raid"@,
            Activity::Hide => "hide"@,
            Activity::Fight => "fight"@,
            Activity::Celebrate => "celebrate"@,
            Activity::AdmireItem => "admire_item"@,
            Activity::Avoid => "avoid"@,
            Activity::Ride => "ride"@,
            Activity::PlayDead => "play_dead"@,
            Activity::LongJump => "long_jump"@,
            Activity::Ram => "ram"@,
            Activity::Tongue => "tongue"@,
            Activity::Swim => "swim"@,
            Activity::LaySpawn => "lay_spawn"@,
            Activity::Sniff => "sniff"@,
            Activity::Investigate => "investigate"@,
            Activity::Roar => "roar"@,
            Activity::Emerge => "emerge"@,
            Activity::Dig => "dig"@,
        }
    }

    /// The name of the activity as data files write it.
    pub fn name(self) -> (name: &'static str)
        ensures
            name@ == self.name_spec(),
    {
        match self {
            Activity::Core => "core",
            Activity::Idle => "idle",
            Activity::Work => "work",
            Activity::Play => "play",
            Activity::Rest => "rest",
            Activity::Meet => "meet",
            Activity::Panic => "panic",
            Activity::Raid => "raid",
            Activity::PreRaid => "pre_raid",
            Activity::Hide => "hide",
            Activity::Fight => "fight",
            Activity::Celebrate => "celebrate",
            Activity::AdmireItem => "admire_item",
            Activity::Avoid => "avoid",
            Activity::Ride => "ride",
            Activity::PlayDead => "play_dead",
            Activity::LongJump => "long_jump",
            Activity::Ram => "ram",
            Activity::Tongue => "tongue",
            Activity::Swim => "swim",
            Activity::LaySpawn => "lay_spawn",
            Activity::Sniff => "sniff",
            Activity::Investigate => "investigate",
            Activity::Roar => "roar",
            Activity::Emerge => "emerge",
            Activity::Dig => "dig",
        }
    }
}

} // verus!
