[package]
name = "girlboss"
version = "2.0.0"
edition = "2021"
publish = false

[dependencies]
arc-swap = "1"
futures = "0.3"
sealed = "*"
thiserror = "*"
tokio = { version = "1", features = ["rt", "rt-multi-thread", "sync", "time"] }
actix-rt = "2"
