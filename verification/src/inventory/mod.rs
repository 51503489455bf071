//! Item stacks, inventories, and the validation of container clicks.

pub mod error;
pub mod item;
pub mod laws;
pub mod rules;
pub mod validate;
pub mod window;
