[package]
name = "rrmsg"
version = "0.1.0"
edition = "2021"
publish = false

[dependencies]
log = "*"
zmq = { version = "*", features = ["vendored"] }
