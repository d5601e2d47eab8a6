[package]
name = "litebox_optee"
version = "0.1.0"
edition = "2021"
publish = false

[dependencies]
anyhow = "1"
base64 = "0.22"
clap = { version = "4", features = ["derive"] }
hashbrown = "0.15"
once_cell = { version = "1", features = ["race"] }
rangemap = "1"
serde = { version = "1", features = ["derive"] }
serde_json = "1"
spin = "0.9"
thiserror = "2"
x86_64 = { version = "0.15", default-features = false, features = ["instructions"] }
