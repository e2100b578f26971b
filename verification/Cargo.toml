[package]
name = "ecr17_protocol"
version = "0.1.0"
edition = "2021"
publish = false

[dependencies]
async-trait = "0.1"
serde = { version = "1", features = ["derive"] }
serde_json = "1"
thiserror = "2"
tokio = { version = "1", features = ["time", "sync", "rt", "rt-multi-thread", "net", "io-util", "macros"] }
