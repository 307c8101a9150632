[package]
name = "p2p_zones"
version = "0.1.0"
edition = "2021"
publish = false

[dependencies]
async-trait = "0.1"
base64 = "=0.21.7"
futures = "0.3"
tokio = { version = "1", features = ["sync"] }
tower = "0.5"
tracing = "0.1"
