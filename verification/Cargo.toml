[package]
name = "lag_sim"
version = "0.1.0"
edition = "2021"
publish = false

[dependencies]
rand = "0.8"
tokio = { version = "1", features = ["net", "io-util", "sync", "rt-multi-thread", "macros", "time", "fs"] }
