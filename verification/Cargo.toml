[package]
name = "ldcodec"
version = "0.1.0"
edition = "2021"
publish = false

[dependencies]
async-trait = "0.1"
tokio = { version = "1", default-features = false, features = ["io-util", "sync"] }
