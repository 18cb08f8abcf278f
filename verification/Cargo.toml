[package]
name = "duplex_rpc"
version = "0.1.0"
edition = "2021"
publish = false

[dependencies]
anyhow = "=1.0.104"
futures = "=0.3.34"
futures-lite = "=2.6.1"
iroh = { version = "=1.4.1", default-features = false, features = ["tls-ring"] }
tarpc = { version = "=0.36.0", default-features = false, features = ["serde-transport", "serde-transport-bincode", "tokio1"] }
tokio = { version = "=1.54.1", default-features = false, features = ["macros", "rt-multi-thread", "sync", "time"] }
