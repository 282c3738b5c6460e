[package]
name = "restic_snapshot"
version = "0.1.0"
edition = "2021"
publish = false

[dependencies]
anyhow = "1"
chrono = "0.4"
fern = "0.6"
file-rotate = "0.6"
log = "0.4"
serde = { version = "1", features = ["derive"] }
toml = "0.5"
