[package]
name = "kcp_tunnel"
version = "0.1.0"
edition = "2021"
publish = false

[dependencies]
uuid = { version = "=1.27.0", features = ["v4"] }
kcp = "=0.6.0"
tokio = { version = "=1.53.2", features = ["rt-multi-thread", "macros", "net", "io-util", "sync", "time"] }
clap = { version = "=4.6.7", features = ["derive"] }
