[package]
name = "route_bridge"
version = "0.1.0"
edition = "2021"
publish = false

[dependencies]
colored = "2"
local-ip-address = "*"
rocket = "0.5"
serde = { version = "1", features = ["derive"] }
serde_json = "1"
