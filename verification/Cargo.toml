[package]
name = "transfer_music_favourites"
version = "0.1.0"
edition = "2021"
publish = false

[dependencies]
rand = "*"
md-5 = "*"
hex = "0.4"
anyhow = "1"
clap = { version = "4", features = ["derive"] }
dirs = "*"
futures = "0.3"
indicatif = "*"
serde = { version = "1", features = ["derive"] }
serde_json = "1"
tokio = { version = "1", features = ["rt-multi-thread", "macros", "fs", "process"] }
reqwest = { version = "*", default-features = false }
config = { version = "*", default-features = false, features = ["toml"] }
