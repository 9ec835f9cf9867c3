[package]
name = "cargo_remote"
version = "0.1.0"
edition = "2021"
publish = false

[dependencies]
anyhow = "1"
cargo_metadata = "*"
clap = { version = "4", features = ["derive"] }
inquire = "*"
log = "0.4"
ping = "*"
reqwest = { version = "0.12", features = ["blocking", "json"] }
serde = { version = "1", features = ["derive"] }
serde_json = "1"
simple_logger = "*"
toml = "*"
xdg = "*"
