[package]
name = "ceseal"
version = "0.1.0"
edition = "2021"
publish = false

[dependencies]
hex = "=0.4.3"
parity-scale-codec = { version = "=3.7.5", default-features = false, features = ["std"] }
sp-core = { version = "=43.0.0", default-features = false, features = ["std"] }
frame-support = { version = "=49.0.1", default-features = false, features = ["std"] }
serde = { version = "1", features = ["derive"] }
serde_json = "1"
tonic = { version = "=0.14.9", default-features = false, features = ["codegen"] }
tracing = "0.1"
parking_lot = "0.12"
