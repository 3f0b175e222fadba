[package]
name = "transport"
version = "0.1.0"
edition = "2021"
publish = false

[dependencies]
axum = { version = "*", features = ["multipart"] }
dirs = "*"
hostname = "*"
local-ip-address = "*"
serde = { version = "*", features = ["derive"] }
serde_json = "*"
tokio = { version = "*", features = ["rt-multi-thread", "macros", "fs", "io-util", "time", "net"] }
tokio-util = { version = "*", features = ["io"] }
tower-http = { version = "*", features = ["cors", "fs"] }
