[package]
name = "svctrl"
version = "0.1.0"
edition = "2021"
publish = false

[dependencies]
unix-named-pipe = "*"
serde = { version = "1", features = ["derive"] }
toml = "*"
clap = "2"
