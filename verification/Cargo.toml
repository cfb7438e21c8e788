[package]
name = "dlm"
version = "0.1.0"
edition = "2021"
publish = false

[dependencies]
futures-util = "=0.3.34"
indicatif = "=0.17.11"
reqwest = { version = "=0.12.28", default-features = false, features = ["native-tls"] }
tokio = { version = "=1.54.1", features = ["fs", "io-util", "macros", "rt-multi-thread", "signal", "sync", "time"] }
tokio-retry = "=0.3.2"
tokio-stream = { version = "=0.1.19", features = ["io-util"] }
tokio-util = "=0.7.20"
