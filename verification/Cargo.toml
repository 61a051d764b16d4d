[package]
name = "doh"
version = "0.1.0"
edition = "2021"
publish = false

[dependencies]
log = "0.4"
quiche = "0.17"
thiserror = "1"
tokio = { version = "1", features = ["macros", "net", "rt", "sync", "time"] }
