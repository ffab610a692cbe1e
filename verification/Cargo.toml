[package]
name = "xdl"
version = "0.1.0"
edition = "2021"
publish = false

[dependencies]
num_enum = "=0.7.6"
sdl2 = "=0.35.2"
serde = { version = "=1.0.229", features = ["derive"] }
