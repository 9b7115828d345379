[package]
name = "lazy_dns"
version = "0.1.0"
edition = "2021"
publish = false

[dependencies]
hyper = { version = "0.14", default-features = false, features = ["client", "http1", "tcp"] }
once_cell = "1"
tokio = { version = "1", features = ["sync", "rt"] }
trust-dns-resolver = "0.20"
