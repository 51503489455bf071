//! What the server tracks of every entity.

pub mod abstract_arrow;
pub mod abstract_horse;
pub mod activity;
pub mod armor_stand;
pub mod avatar;
pub mod bat;
pub mod blaze;
pub mod entity;
pub mod flags;
pub mod fox;
pub mod iron_golem;
pub mod living;
pub mod mob;
pub mod panda;
pub mod snow_golem;
pub mod spider;
pub mod tamable_animal;
pub mod vex;
