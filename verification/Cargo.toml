[package]
name = "tls_relay"
version = "0.1.0"
edition = "2021"
publish = false

[dependencies]
tokio = { version = "*", features = ["rt-multi-thread", "macros", "net", "time", "io-util"] }
rustls = { version = "*", default-features = false, features = ["ring", "std", "tls12"] }
rustls-pemfile = "*"
tokio-rustls = { version = "*", default-features = false, features = ["ring", "tls12"] }
