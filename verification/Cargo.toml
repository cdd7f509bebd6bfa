[package]
name = "semverguard"
version = "0.1.0"
edition = "2021"
publish = false

[dependencies]
globset = "0.4"
sha2 = "0.10"
hex = "0.4"
semver = "1"
time = { version = "0.3", features = ["parsing", "formatting"] }
serde = { version = "1", features = ["derive"] }
serde_json = "1"
toml = "0.8"
toml_edit = "0.22"
anyhow = "1"
thiserror = "2"
clap = { version = "4", features = ["derive"] }
indicatif = "0.17"
