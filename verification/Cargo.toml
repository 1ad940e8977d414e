[package]
name = "pirates"
version = "0.1.0"
edition = "2021"
publish = false

[dependencies]
clap = "4"
log = "0.4"
serde = { version = "1", features = ["derive"] }
serde-pickle = "1"
tokio = { version = "1", features = ["io-util", "net", "rt"] }
