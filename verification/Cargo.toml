[package]
name = "grisui"
version = "0.1.0"
edition = "2021"
publish = false

[dependencies]
sdl2 = "=0.38.0"
vek = "=0.17.2"
log = "=0.4.35"
env_logger = "=0.11.11"
serde = { version = "=1.0.229", features = ["derive"] }
gl = "*"
freetype-sys = "*"
alto = "*"
backtrace = "*"
