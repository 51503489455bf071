//! Dimension types: what tells the overworld from the nether and the end.

use vstd::prelude::*;

verus! {

/// The index of a dimension type in its registry.
#[derive(Copy, Clone, PartialEq, Eq, PartialOrd, Ord, Hash, Debug, Structural)]
pub struct DimensionTypeId(u16);

impl Default for DimensionTypeId {
    fn default() -> (id: DimensionTypeId)
        ensures
            id.value() == 0,
    {
        DimensionTypeId(0)
    }
}

impl DimensionTypeId {
    /// The highest index that a registry of dimension types has.
    pub const MAX: usize = 0xFFFF;

    /// The number that the index holds.
    pub closed spec fn value(self) -> u16 {
        self.0
    }

    pub fn new(value: u16) -> (id: DimensionTypeId)
        ensures
            id.value() == value,
    {
        DimensionTypeId(value)
    }

    pub fn get_value(&self) -> (value: u16)
        ensures
            value == self.value(),
    {
        self.0
    }

    /// The index as a position in the registry.
    pub fn to_index(self) -> (idx: usize)
        ensures
            idx == self.value(),
            idx <= Self::MAX,
    {
        self.0 as usize
    }

    /// The index for a position in the registry: the lowest sixteen bits
    /// of `idx`.
    pub fn from_index(idx: usize) -> (id: DimensionTypeId)
        ensures
            id.value() == idx % 0x10000,
            idx <= Self::MAX ==> id.value() == idx,
    {
        DimensionTypeId((idx % 0x10000) as u16)
    }
}

/// Which sky and fog a dimension shows.
#[derive(Clone, Copy, PartialEq, Eq, Debug, Structural)]
pub enum DimensionEffects {
    Overworld,
    TheNether,
    TheEnd,
}

impl Default for DimensionEffects {
    fn default() -> (effects: DimensionEffects)
        ensures
            effects == DimensionEffects::Overworld,
    {
        DimensionEffects::Overworld
    }
}

/// The light below which monsters spawn: one level, or a range of levels
/// to pick from.
#[derive(Copy, Clone, PartialEq, Eq, Debug, Structural)]
pub enum MonsterSpawnLightLevel {
    Int(i32),
    Tagged(MonsterSpawnLightLevelTagged),
}

#[derive(Copy, Clone, PartialEq, Eq, Debug, Structural)]
pub enum MonsterSpawnLightLevelTagged {
    Uniform { min_inclusive: i32, max_inclusive: i32 },
}

impl From<i32> for MonsterSpawnLightLevel {
    fn from(value: i32) -> (level: MonsterSpawnLightLevel) {
        MonsterSpawnLightLevel::Int(value)
    }
}

impl vstd::std_specs::convert::FromSpecImpl<i32> for MonsterSpawnLightLevel {
    open spec fn obeys_from_spec() -> bool {
        true
    }

    open spec fn from_spec(value: i32) -> MonsterSpawnLightLevel {
        MonsterSpawnLightLevel::Int(value)
    }
}

/// The sky of a dimension.
#[derive(Copy, Clone, PartialEq, Eq, Debug, Structural)]
pub enum Skybox {
    Nothing,
    Overworld,
    End,
}

impl Default for Skybox {
    fn default() -> (skybox: Skybox)
        ensures
            skybox == Skybox::Nothing,
    {
        Skybox::Nothing
    }
}

/// From where light falls on the blocks of a dimension.
#[derive(Copy, Clone, PartialEq, Eq, Debug, Structural)]
pub enum CardinalLightType {
    Default,
    Nether,
}

impl Default for CardinalLightType {
    fn default() -> (light: CardinalLightType)
        ensures
            light == CardinalLightType::Default,
    {
        CardinalLightType::Default
    }
}

} // verus!
