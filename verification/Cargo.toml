[package]
name = "bear_rs"
version = "0.1.0"
edition = "2021"
publish = false

[dependencies]
clap = "4"
regex = "1"
serde = { version = "1", features = ["derive"] }
serde_json = "1"
tokio = { version = "1", features = ["fs", "io-util", "macros", "process", "rt-multi-thread"] }
