[package]
name = "iroh_node"
version = "0.1.0"
edition = "2021"
publish = false

[dependencies]
data-encoding = "*"
ed25519-dalek = "*"
rand = "*"
uuid = { version = "*", features = ["v4"] }
chrono = "*"
