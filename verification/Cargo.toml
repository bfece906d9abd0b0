[package]
name = "distant_core"
version = "0.1.0"
edition = "2021"
publish = false

[dependencies]
serde = { version = "1", features = ["derive"] }
serde_json = "1"
notify = "*"
log = "0.4"
rand = "*"
semver = "1"
tokio = { version = "1", features = ["sync", "rt", "time", "macros"] }
