//! Server-side building blocks of a Minecraft server framework, with
//! machine-checked contracts.
//!
//! The heart of the crate is [`inventory::validate`], which decides whether
//! a container click proposed by a client is a legal manipulation of the
//! player's inventory, and rebuilds the full item stacks the click results
//! in. Around it stand smaller parts of the framework: colors and other
//! registry values, flags of entities, the scope graph of commands, and the
//! bit-level frames of some values on the wire.

pub mod command;
pub mod entity;
pub mod generated;
pub mod inventory;
pub mod protocol;
pub mod registry;
pub mod server;
