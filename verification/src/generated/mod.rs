//! What the generated parts of the code base are made from.

pub mod constants;
