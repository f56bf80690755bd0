[package]
name = "cargo-liner"
version = "0.1.0"
edition = "2021"
publish = false

[dependencies]
semver = "=1.0.28"
url = "=2.5.8"
clap = { version = "=4.6.7", features = ["derive", "cargo"] }
clap_complete = "=4.6.11"
color-eyre = "=0.6.5"
log = "=0.4.35"
pretty_env_logger = "=0.5.0"
serde = { version = "=1.0.229", features = ["derive"] }
toml = "=0.8.23"
tabled = "=0.16.0"
human-panic = "=2.0.8"
home = "=0.5.12"
