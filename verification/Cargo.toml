[package]
name = "reactor_core"
version = "0.1.0"
edition = "2021"
publish = false

[dependencies]
rand = "0.8"
mio = { version = "1.0", features = ["net", "os-poll"] }
