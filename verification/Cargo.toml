[package]
name = "sshkm"
version = "0.1.0"
edition = "2021"
publish = false

[dependencies]
env_logger = "*"
etc-passwd = "*"
file-owner = "*"
log = "*"
reqwest = { version = "*", default-features = false, features = ["rustls-tls"] }
seahorse = "*"
serde = { version = "*", features = ["derive"] }
serde_yaml = "*"
tokio = { version = "*", features = ["rt-multi-thread", "macros", "time", "fs", "io-util"] }
