[package]
name = "feluda"
version = "0.1.0"
edition = "2021"
publish = false

[dependencies]
cargo_metadata = "*"
color-eyre = "*"
colored = "*"
dirs = "*"
ignore = "*"
ratatui = "*"
regex = "1"
reqwest = { version = "0.12", default-features = false, features = ["blocking", "json", "rustls-tls"] }
semver = "1"
serde = { version = "1", features = ["derive"] }
serde_json = "1"
serde_yaml = "0.9"
toml = "*"
unicode-width = "*"
