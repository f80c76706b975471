[package]
name = "helix_core"
version = "1.2.0"
edition = "2021"
publish = false

[dependencies]
blake3 = "*"
chrono = "*"
dirs-next = "*"
hex = "*"
serde = { version = "*", features = ["derive"] }
serde_json = "*"
tokio = { version = "*", features = ["macros", "rt-multi-thread", "net", "io-util", "sync", "time", "fs"] }
uuid = { version = "*", features = ["v4"] }
