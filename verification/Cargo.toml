[package]
name = "pneumatic_data"
version = "0.1.0"
edition = "2021"
publish = false

[dependencies]
moka = { version = "=0.12.16", features = ["sync"] }
serde = "=1.0.229"
rmp-serde = "=1.3.1"
