//! Commands and who may use them.

pub mod graph;
pub mod reach;
pub mod scopes;
