[package]
name = "benthic_client"
version = "0.1.0"
edition = "2021"
publish = false

[dependencies]
chrono = { version = "*", default-features = false, features = ["clock"] }
clap = { version = "*", default-features = false, features = ["std", "derive", "help"] }
crossbeam-channel = "*"
env_logger = { version = "*", default-features = false }
log = "*"
benthic_protocol = "=0.2.1"
tokio = { version = "*", features = ["rt", "rt-multi-thread", "net", "time", "macros"] }
