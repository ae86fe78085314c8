[package]
name = "cfdp_core"
version = "0.1.0"
edition = "2021"
publish = false

[dependencies]
crossbeam-channel = "0.5"
log = "0.4"
serialport = "4"
thiserror = "1"
tokio = { version = "1", features = ["sync"] }
