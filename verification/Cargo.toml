[package]
name = "nesemu"
version = "0.1.0"
edition = "2021"
publish = false

[dependencies]
env_logger = "*"
log = "0.4"
sdl2 = "*"
serde = "1"
serde_derive = "1"
serde_json = "1"
