[package]
name = "backend"
version = "0.1.0"
edition = "2021"
publish = false

[dependencies]
rand = "*"
parking_lot = "*"
tiny_http = "*"
serde = { version = "*", features = ["derive"] }
