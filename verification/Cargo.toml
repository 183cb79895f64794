[package]
name = "rust_snapshot"
version = "0.1.0"
edition = "2021"
publish = false

[dependencies]
chrono = "0.4"
image = { version = "0.24", default-features = false, features = ["png", "jpeg"] }
serde = { version = "1", features = ["derive"] }
toml = "0.5"
slog = "2"
sloggers = "2"
sntpc = "0.2"
ffmpeg-sys = "*"
rascam = "*"
