[package]
name = "clewdr_state"
version = "0.1.0"
edition = "2021"
publish = false

[dependencies]
colored = "=3.1.1"
tokio = { version = "=1.53.2", features = ["sync"] }
tracing = "=0.1.44"
