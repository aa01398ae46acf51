[package]
name = "apollo_fusion"
version = "0.1.0"
edition = "2021"
publish = false

[dependencies]
byteorder = "1"
chrono = "0.4"
failure = "0.1"
kubos-app = "0.1.0"
kubos-system = "0.1.0"
lazy_static = "1"
log = "0.4"
serde_json = "1"
