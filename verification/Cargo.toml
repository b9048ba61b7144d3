[package]
name = "op_bus"
version = "0.1.0"
edition = "2021"
publish = false

[dependencies]
nix = { version = "=0.31.3", features = ["signal"] }
rand = "=0.10.3"
url = "=2.5.8"
http = "=1.5.0"
serde_json = "=1.0.151"
