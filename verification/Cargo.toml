[package]
name = "vapor_sdk_core"
version = "0.5.0"
edition = "2021"
publish = false

[dependencies]
toml = "=0.8.23"
clap = { version = "=4.6.7", features = ["derive"] }
dialoguer = "=0.11.0"
owo-colors = { version = "=4.4.0", features = ["supports-colors"] }
