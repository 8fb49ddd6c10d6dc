[package]
name = "statichost"
version = "0.1.0"
edition = "2021"
publish = false

[dependencies]
http = "=1.5.0"
chashmap = "=2.2.2"
tokio = { version = "=1.53.2", features = ["rt-multi-thread", "macros", "net", "fs", "io-util", "sync"] }
clap = { version = "=4.6.7", features = ["derive", "env"] }
libc = "=0.2.190"
bytes = "=1.12.1"
