//! What the server makes of the packets of its clients.

pub mod client_command;
