[package]
name = "spork"
version = "0.1.0"
edition = "2021"

[dependencies]
automerge = "=0.12.0"
samod-core = "=0.15.0"
samod = { version = "=0.15.0", features = ["tokio", "tungstenite"] }
tokio = { version = "=1.53.2", features = ["rt-multi-thread", "sync", "time", "macros"] }
tokio-tungstenite = "=0.30.0"
url = "=2.5.8"
