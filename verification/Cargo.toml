[package]
name = "smpp"
version = "0.1.0"
edition = "2021"
publish = false

[dependencies]
smpp-pdu = "*"
ascii = "*"
tokio = { version = "*", features = ["rt-multi-thread", "net", "io-util", "sync", "time", "macros"] }
async-trait = "*"
futures = "*"
clap = { version = "*", features = ["derive", "env"] }
env_logger = "*"
log = "*"
