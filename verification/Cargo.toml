[package]
name = "mempool_watch"
version = "0.1.0"
edition = "2021"
publish = false

[dependencies]
ethers = { version = "2.0", default-features = false, features = ["abigen", "ws"] }
tokio = { version = "1", features = ["macros", "rt-multi-thread", "sync"] }
