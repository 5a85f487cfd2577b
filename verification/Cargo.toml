[package]
name = "causal_ops"
version = "0.1.0"
edition = "2021"
publish = false

[dependencies]
hex = "0.4"
smol_str = "0.1"
tinyvec = { version = "1", features = ["std"] }
uuid = { version = "1", features = ["v4"] }
serde = { version = "1", features = ["derive"] }
thiserror = "1"
arbitrary = "1"
wasm-bindgen = "0.2"
