[package]
name = "brew_manager"
version = "0.1.0"
edition = "2021"
publish = false

[dependencies]
serde = { version = "*", features = ["derive"] }
tokio = { version = "*", features = ["process", "io-util", "sync", "rt-multi-thread", "macros"] }
