//! Packets, grouped by the connection state they belong to.

pub mod common;
pub mod configuration;
pub mod container_click;
pub mod play;
