[package]
name = "inachus"
version = "0.1.0"
edition = "2021"
publish = false

[dependencies]
alloy-primitives = "*"
alloy-json-abi = "*"
hex = "*"
humantime = "*"
serde = { version = "*", features = ["derive"] }
serde_json = "*"
toml = "*"
inquire = "*"
colored = "*"
