[package]
name = "barlog"
version = "0.1.0"
edition = "2021"
publish = false

[dependencies]
chrono = "=0.4.45"
colored = "=3.1.1"
log = { version = "=0.4.34", features = ["std"] }
