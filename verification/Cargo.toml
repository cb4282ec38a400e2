[package]
name = "tokengen_cert"
version = "0.1.0"
edition = "2021"
publish = false

[dependencies]
base64 = "=0.23.1"
clap = { version = "=4.6.7", features = ["derive"] }
jwt = { version = "=0.16.0", features = ["openssl"] }
openssl = "=0.10.81"
reqwest = { version = "=0.13.5", features = ["form"] }
serde = { version = "=1.0.229", features = ["derive"] }
serde_json = "=1.0.151"
tokio = { version = "=1.53.2", features = ["rt-multi-thread", "macros"] }
