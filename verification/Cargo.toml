[package]
name = "plugforge"
version = "0.1.0"
edition = "2021"
publish = false

[dependencies]
anyhow = "1"
clap = { version = "4", features = ["derive"] }
cliclack = "0.3"
colored = "2"
toml = { version = "0.8", features = ["preserve_order"] }
