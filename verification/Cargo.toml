[package]
name = "gwf"
version = "0.1.0"
edition = "2021"
publish = false

[dependencies]
clap = "4"
dialoguer = { version = "0.11", features = ["fuzzy-select"] }
dirs = "5"
git2 = { version = "0.19", default-features = false }
serde = { version = "1", features = ["derive"] }
slug = "0.1"
toml = "0.8"
