[package]
name = "bbmicro"
version = "0.1.0"
edition = "2021"
publish = false

[dependencies]
sdl2 = { version = "0.35", features = ["image", "mixer"] }
serde = { version = "1", features = ["derive"] }
serde_json = "1"
