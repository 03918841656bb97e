[package]
name = "flexar"
version = "0.1.0"
edition = "2021"
publish = false

[dependencies]
mlua = { version = "=0.8.10", features = ["lua54", "vendored"] }
eframe = { version = "=0.22.0", default-features = false, features = ["glow", "default_fonts"] }
dirs = "*"
include_dir = "*"
serde = { version = "*", features = ["derive"] }
serde_derive = "*"
toml = "*"
