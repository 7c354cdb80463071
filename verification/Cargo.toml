[package]
name = "quido_node"
version = "0.1.0"
edition = "2021"
publish = false

[dependencies]
anyhow = "*"
clap = { version = "*", features = ["derive"] }
log = "*"
rustls = { version = "*", default-features = false, features = ["ring", "std", "logging", "tls12"] }
rustls-pemfile = "*"
simplelog = "*"
tokio = { version = "*", features = ["rt-multi-thread", "macros", "net", "io-util", "time"] }
tokio-rustls = { version = "*", default-features = false, features = ["ring", "logging", "tls12"] }
