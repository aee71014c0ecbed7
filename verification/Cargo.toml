[package]
name = "dht_shell"
version = "0.1.0"
edition = "2021"
publish = false

[dependencies]
clap = { version = "*", features = ["derive"] }
dhust = "*"
log = "*"
simple_logger = "*"
tokio = { version = "*", features = ["macros", "rt-multi-thread", "sync"] }
