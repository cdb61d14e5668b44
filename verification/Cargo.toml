[package]
name = "node_host"
version = "0.1.0"
edition = "2021"
publish = false

[dependencies]
macaroon = "*"
portpicker = "*"
public-ip = "*"
serde = { version = "*", features = ["derive"] }
tokio = { version = "*", features = ["full"] }
