[package]
name = "command_gateway"
version = "0.1.0"
edition = "2021"
publish = false

[dependencies]
serde_json = "1"
tonic = { version = "0.12", default-features = false, features = ["channel", "codegen", "prost"] }
prost = "0.13"
