[package]
name = "dagcbor_json"
version = "0.1.0"
edition = "2021"
publish = false

[dependencies]
ipld-core = { version = "*", features = ["serde"] }
serde_ipld_dagcbor = "*"
serde_json = "=1.0.151"
rustler = "*"
