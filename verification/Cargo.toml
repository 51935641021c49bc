[package]
name = "deno_ffi"
version = "0.1.0"
edition = "2021"
publish = false

[dependencies]
dlopen = "*"
libffi = "*"
serde = { version = "*", features = ["derive"] }
serde_json = "*"
