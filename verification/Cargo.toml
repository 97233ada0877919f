[package]
name = "primemh"
version = "0.1.0"
edition = "2021"
publish = false

[dependencies]
device_query = "2"
serde = { version = "1", features = ["derive"] }
serde_json = "1"
log = "0.4"
lazy_static = "1"
