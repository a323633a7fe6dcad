[package]
name = "runtime_modules"
version = "0.1.0"
edition = "2021"
publish = false

[dependencies]
parity-scale-codec = { version = "1.3.4", features = ["derive"] }
serde = { version = "1.0", features = ["derive"] }
