[package]
name = "backend"
version = "0.1.0"
edition = "2021"
publish = false

[dependencies]
serde = "1"
serde_derive = "1"
tokio = { version = "1", features = ["macros", "rt-multi-thread"] }
warp = "0.3"
