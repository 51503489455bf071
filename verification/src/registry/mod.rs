//! Values of the registries that server and client share.

pub mod color;
pub mod dimension_type;
pub mod environment_attribute;
pub mod hex;
