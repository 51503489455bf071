//! Values that travel between client and server.

pub mod arm;
pub mod block_pos;
pub mod bounded;
pub mod bytes;
pub mod either;
pub mod game_mode;
pub mod lpvec;
pub mod packets;
pub mod relative;
pub mod var_int;
pub mod waypoint;
