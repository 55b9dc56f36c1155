[package]
name = "cozymdt"
version = "0.1.0"
edition = "2021"
publish = false

[dependencies]
dirs = "5"
json5 = "0.4"
open = "5"
serde = { version = "1", features = ["derive"] }
