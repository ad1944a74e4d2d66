[package]
name = "executor"
version = "0.1.0"
edition = "2021"
publish = false

[dependencies]
serde = { version = "*", features = ["derive"] }
smoldot = "*"
jsonrpsee = { version = "*", features = ["async-client"] }
