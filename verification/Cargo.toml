[package]
name = "signal_node_error"
version = "0.1.0"
edition = "2021"
publish = false

[dependencies]
http = "1"
log = "0.4"
neon = { version = "1", default-features = false, features = ["napi-6"] }
uuid = "1"
