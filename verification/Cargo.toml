[package]
name = "xtask"
version = "0.1.0"
edition = "2021"
publish = false

[dependencies]
anyhow = "=1.0.104"
clap = { version = "=4.6.7", features = ["derive"] }
cargo_toml = "=1.0.1"
cargo-packager = "=0.11.8"
windows = { version = "=0.58.0", features = ["Win32_Foundation", "Win32_System_Threading"] }
