[package]
name = "natively-audio"
version = "0.1.0"
edition = "2021"
publish = false

[dependencies]
ringbuf = "0.4"
napi = { version = "2", features = ["napi4"] }
napi-derive = "2"
