[package]
name = "vimouse"
version = "0.1.0"
edition = "2021"
publish = false

[dependencies]
rdev = { version = "0.5", features = ["unstable_grab"] }
core-graphics = "*"
core-foundation = "*"
accessibility-sys = "*"
