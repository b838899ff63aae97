[package]
name = "duraflow-rs"
version = "0.1.0"
edition = "2021"
publish = false

[dependencies]
dagx = "=0.3.1"
futures = "=0.3.34"
parking_lot = "=0.12.5"
serde = "=1.0.229"
serde_json = "=1.0.154"
tokio = { version = "=1.54.1", features = ["rt-multi-thread", "macros"] }
