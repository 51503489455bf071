[package]
name = "kanden"
version = "0.1.0"
edition = "2021"
publish = false

[dependencies]
anyhow = "1"
bevy_app = { version = "0.14", default-features = false }
bevy_ecs = { version = "0.14", default-features = false }
byteorder = "1"
clap = { version = "4", features = ["derive"] }
env_logger = "0.11"
git2 = "0.19"
heck = "0.5"
log = "0.4"
petgraph = "0.6"
proc-macro2 = "1"
quote = "1"
serde = { version = "1", features = ["derive"] }
serde_json = "1"
