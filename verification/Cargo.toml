[package]
name = "poke_spearify"
version = "0.1.0"
edition = "2021"
publish = false

[dependencies]
serde_json = "*"
tide = "*"
surf = { version = "*", default-features = false, features = ["h1-client-rustls"] }
async-std = { version = "*", features = ["attributes"] }
tide-tracing = "*"
