[package]
name = "xcode_build"
version = "0.1.0"
edition = "2021"
publish = false

[dependencies]
toml = "0.8"
camino = "1"
clap = { version = "4", features = ["derive"] }
color-eyre = "0.6"
serde = { version = "1", features = ["derive"] }
tracing = "0.1"
tracing-subscriber = { version = "0.3", features = ["env-filter"] }
tracing-error = "0.2"
which = "*"
bossy = "*"
