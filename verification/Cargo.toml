[package]
name = "tls_lookahead"
version = "0.1.0"
edition = "2021"
publish = false

[dependencies]
rustls = { version = "=0.21.12", features = ["dangerous_configuration"] }
rustls-native-certs = "=0.6.3"
clap = { version = "=4.6.7", features = ["derive"] }
