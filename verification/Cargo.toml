[package]
name = "argon2_bridge"
version = "0.1.0"
edition = "2021"
publish = false

[dependencies]
rust-argon2 = { version = "=1.0.1", default-features = false }
serde_json = { version = "=1.0.154", features = ["preserve_order"] }
