[package]
name = "u_window"
version = "0.1.0"
edition = "2021"
publish = false

[dependencies]
heck = "=0.3.3"
xcb = "0.10"
cairo-rs = { version = "=0.5.0", features = ["xcb"] }
cairo-sys-rs = "=0.7.0"
pango = "=0.5.0"
pangocairo = "=0.6.0"
log = "=0.4.34"
env_logger = "=0.5.13"
