[package]
name = "leftright_buffer"
version = "0.1.0"
edition = "2021"
publish = false

[dependencies]
spin = { version = "0.9", default-features = false, features = ["rwlock"] }
