[package]
name = "openfx_playground"
version = "0.1.0"
edition = "2021"
publish = false

[dependencies]
plist = "1"
clap = "4"
cargo_toml = "*"
current_platform = "*"
tracing = "0.1"
