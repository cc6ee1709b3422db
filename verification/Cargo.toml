[package]
name = "loadgen"
version = "0.1.0"
edition = "2021"
publish = false

[dependencies]
serde_json = "=1.0.154"
flume = "=0.11.1"
serde = { version = "=1.0.229", features = ["derive"] }
clap = { version = "=4.6.7", features = ["derive"] }
color-eyre = "=0.6.5"
common_x = { version = "=0.9.0", features = ["config", "log"] }
indicatif = "=0.17.11"
parking_lot = "=0.12.5"
reqwest = { version = "=0.12.28", default-features = false, features = ["json"] }
tokio = { version = "=1.54.1", features = ["rt-multi-thread", "time"] }
tracing = "=0.1.44"
